//! The least an overlay can be.

use crate::view::BottomPaneView;
use ratatui::buffer::Buffer;
use ratatui::layout::Rect;
use vstd::prelude::*;

verus! {

/// An overlay that reserves a number of lines and leaves them blank.
///
/// It writes the two operations that every overlay has to write and keeps
/// the provided body of every other one. So it ignores keys and
/// cancellation, never completes, never asks to be hidden, declines every
/// approval request and drops status updates.
#[derive(Clone, Copy, Debug, PartialEq, Eq)]
pub struct Spacer {
    /// The number of lines to reserve, whatever the width.
    pub lines: u16,
}

#[allow(unused_variables)]
impl BottomPaneView for Spacer {
    /// `lines`, at every width.
    fn desired_height(&self, width: u16) -> (height: u16)
        ensures
            height == self.lines,
    {
        self.lines
    }

    /// Paints nothing: the surface stays as it was.
    fn render(&self, area: Rect, buf: &mut Buffer)
        ensures
            *final(buf) == *old(buf),
    {
    }
}

} // verus!
