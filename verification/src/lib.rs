//! The overlay-view contract of a terminal interface's bottom pane.
//!
//! The bottom of the screen normally shows a text composer. From time to time
//! a modal overlay takes its place: a confirmation prompt, an approval dialog,
//! a status indicator. Every such overlay implements [`BottomPaneView`], and
//! the host drives all of them through that one trait, whatever their kind.
//!
//! * [`view`] holds the trait and the behaviour of an overlay that leaves an
//!   operation as it is.
//! * [`pane`] holds [`BottomPane`], the part of the host that an overlay can
//!   reach, with the delivery of keys.
//! * [`offer`] holds the offer of an approval request to a chain of
//!   overlays.
//! * [`spacer`] holds the least overlay there is, one that keeps every
//!   provided body.
//! * [`cancellation`] and [`approval`] hold the two values that travel
//!   between host and overlay.
//! * [`terminal`] makes the terminal libraries' types known to the verifier.

pub mod approval;
pub mod cancellation;
pub mod offer;
pub mod pane;
pub mod spacer;
pub mod terminal;
pub mod view;

pub use approval::ApprovalRequest;
pub use cancellation::CancellationEvent;
pub use offer::offer_approval_request;
pub use pane::BottomPane;
pub use spacer::Spacer;
pub use view::BottomPaneView;
