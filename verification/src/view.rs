//! The contract between the host and every overlay it shows.

use crate::approval::ApprovalRequest;
use crate::cancellation::CancellationEvent;
use crate::pane::BottomPane;
use crossterm::event::KeyEvent;
use ratatui::buffer::Buffer;
use ratatui::layout::Rect;
use vstd::prelude::*;

verus! {

/// An overlay that can be shown in the bottom pane in place of the composer.
///
/// The host calls one operation at a time, on the thread that owns the
/// interface, in the order in which keys, status updates and task
/// notifications arrive. No operation fails: what an overlay does not
/// support it leaves alone.
///
/// An overlay has to say how tall it wants to be and how it is painted.
/// Every other operation has a provided body, so that the host can call the
/// whole set on any overlay. What a provided body does is stated under
/// `default_ensures`: it holds of every overlay that keeps that body, and
/// binds no overlay that writes its own. What stands under `ensures` binds
/// every overlay.
///
/// The trait has no `Sized` bound, so the host can hold a
/// `Box<dyn BottomPaneView>` without knowing the overlay's kind. For that
/// reason the clauses compare the overlay before and after a call through
/// references.
#[allow(unused_variables)]
pub trait BottomPaneView {
    /// Handles a key while the overlay is active. The overlay may change
    /// itself and may reach into the host, for instance to ask for a redraw.
    ///
    /// The host calls this through [`BottomPane::handle_key_event`], which
    /// schedules a redraw once the overlay has returned.
    ///
    /// The provided body ignores the key: overlay and host stay as they were.
    fn handle_key_event(&mut self, pane: &mut BottomPane, key_event: KeyEvent)
        default_ensures
            &*final(self) == &*old(self),
            *final(pane) == *old(pane),
    {
    }

    /// Whether the overlay has served its purpose and should be detached
    /// from the host.
    ///
    /// The provided body answers `false` in every state: such an overlay
    /// never completes on its own.
    fn is_complete(&self) -> (done: bool)
        default_ensures
            done == false,
    {
        false
    }

    /// Offers the overlay a cancellation signal.
    ///
    /// An overlay that answers [`CancellationEvent::Ignored`] took no
    /// action: it and the host are as they were. One that dismissed itself
    /// or reverted anything answers [`CancellationEvent::Handled`].
    ///
    /// The provided body answers `Ignored`.
    fn on_ctrl_c(&mut self, pane: &mut BottomPane) -> (outcome: CancellationEvent)
        ensures
            outcome == CancellationEvent::Ignored ==> &*final(self) == &*old(self),
            outcome == CancellationEvent::Ignored ==> *final(pane) == *old(pane),
        default_ensures
            outcome == CancellationEvent::Ignored,
            &*final(self) == &*old(self),
            *final(pane) == *old(pane),
    {
        CancellationEvent::Ignored
    }

    /// The number of lines the host should reserve for the overlay when
    /// `width` columns are available. No width is excluded: an overlay that
    /// wraps its text has to cope with a width of zero. The answer is a line
    /// count, and as such never negative.
    fn desired_height(&self, width: u16) -> (height: u16)
        ensures
            height >= 0,
    ;

    /// Paints the overlay into `area` of `buf`, where the composer would
    /// have been painted. The overlay keeps neither after the call.
    fn render(&self, area: Rect, buf: &mut Buffer);

    /// Hands the overlay the latest text of the animated status header.
    ///
    /// The provided body drops the text: the overlay stays as it was.
    fn update_status_header(&mut self, header: String)
        default_ensures
            &*final(self) == &*old(self),
    {
    }

    /// Asked once when the background task has finished: whether the host
    /// should now hide the overlay.
    ///
    /// The provided body answers `false` and leaves the overlay as it was:
    /// it stays visible.
    fn should_hide_when_task_is_done(&mut self) -> (hide: bool)
        default_ensures
            hide == false,
            &*final(self) == &*old(self),
    {
        false
    }

    /// Offers the overlay an approval request. `None` means that the overlay
    /// has claimed the request and owns it from now on. `Some` means that it
    /// has declined, and then the caller gets back the request it handed in,
    /// unchanged, to offer it to the next candidate.
    ///
    /// The provided body declines every request and leaves the overlay as it
    /// was.
    fn try_consume_approval_request(
        &mut self,
        request: ApprovalRequest,
    ) -> (handed_back: Option<ApprovalRequest>)
        ensures
            handed_back matches Some(returned) ==> returned == request,
        default_ensures
            handed_back == Some(request),
            &*final(self) == &*old(self),
    {
        Some(request)
    }

    /// Hands the overlay the latest text of a live one-line status display.
    ///
    /// The provided body drops the text: the overlay stays as it was.
    fn update_status_text(&mut self, text: String)
        default_ensures
            &*final(self) == &*old(self),
    {
    }
}

} // verus!
