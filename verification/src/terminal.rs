//! The types of the terminal libraries that pass through the view contract.
//!
//! The contract hands these values from the host to an overlay and never
//! looks inside them, so each is declared opaque: the verifier knows that the
//! type exists and nothing about its contents.

use vstd::prelude::*;

verus! {

/// `crossterm::event::KeyEvent`, one decoded key press. Opaque: nothing is
/// claimed about the key or its modifiers.
#[verifier::external_type_specification]
#[verifier::external_body]
pub struct ExKeyEvent(crossterm::event::KeyEvent);

/// `ratatui::layout::Rect`, the region of the screen an overlay is told to
/// paint into. Opaque: nothing is claimed about its position or size.
#[verifier::external_type_specification]
#[verifier::external_body]
pub struct ExRect(ratatui::layout::Rect);

/// `ratatui::buffer::Buffer`, the drawing surface an overlay paints on.
/// Opaque: nothing is claimed about its cells.
#[verifier::external_type_specification]
#[verifier::external_body]
pub struct ExBuffer(ratatui::buffer::Buffer);

} // verus!
