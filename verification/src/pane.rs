//! The host's side of the view contract.

use crate::view::BottomPaneView;
use crossterm::event::KeyEvent;
use vstd::prelude::*;

verus! {

/// The part of the host that an overlay can reach while it handles a key or
/// a cancellation signal.
///
/// It holds the redraws that are scheduled: the requests made since the
/// screen was last painted. Every request counts. The next display cycle
/// paints the screen once and thereby serves all of them, so all the running
/// host has to keep is whether any request is waiting; their number is kept for
/// the contracts alone.
pub struct BottomPane {
    redraw_requested: bool,
    requests: Ghost<nat>,
}

impl BottomPane {
    /// A redraw is owed exactly when a request is waiting.
    #[verifier::type_invariant]
    spec fn owed_when_requested(self) -> bool {
        self.redraw_requested <==> self.requests@ > 0
    }

    /// The number of redraws that are scheduled: the requests made since the
    /// screen was last painted.
    pub closed spec fn scheduled_redraws(&self) -> nat {
        self.requests@
    }

    /// Whether the running host has the screen marked for repainting. On a
    /// host that the program holds this is so exactly when a redraw is
    /// scheduled.
    pub closed spec fn redraw_owed(&self) -> bool {
        self.redraw_requested
    }

    /// A host with nothing to repaint.
    pub fn new() -> (pane: Self)
        ensures
            pane.scheduled_redraws() == 0,
            !pane.redraw_owed(),
    {
        BottomPane { redraw_requested: false, requests: Ghost(0) }
    }

    /// Schedules a redraw: one more is scheduled than before.
    pub fn request_redraw(&mut self)
        ensures
            final(self).scheduled_redraws() == old(self).scheduled_redraws() + 1,
            final(self).redraw_owed(),
    {
        let ghost waiting = self.requests@ + 1;
        *self = BottomPane { redraw_requested: true, requests: Ghost(waiting) };
    }

    /// Takes the scheduled redraws off the host, for the caller to paint the
    /// screen once. Answers whether any was scheduled; afterwards none is.
    pub fn take_scheduled_redraw(&mut self) -> (due: bool)
        ensures
            due <==> old(self).scheduled_redraws() > 0,
            due == old(self).redraw_owed(),
            final(self).scheduled_redraws() == 0,
            !final(self).redraw_owed(),
    {
        proof {
            use_type_invariant(&*self);
        }
        let due = self.redraw_requested;
        *self = BottomPane { redraw_requested: false, requests: Ghost(0) };
        due
    }

    /// Delivers a key to the active overlay and schedules a redraw.
    ///
    /// The overlay's handler is called with the key, on the overlay and the
    /// host as they come in, and the overlay leaves as the handler left it.
    /// Then the host schedules exactly one redraw on top of what the handler
    /// left scheduled, whatever the overlay is and whatever it did with the
    /// key. So at least one redraw is scheduled when this returns.
    pub fn handle_key_event<V: BottomPaneView + ?Sized>(
        &mut self,
        view: &mut V,
        key_event: KeyEvent,
    )
        ensures
            exists|overlay: &mut V, host: &mut BottomPane|
                &*overlay == &*old(view)
                    && &*final(overlay) == &*final(view)
                    && *host == *old(self)
                    && #[trigger] call_ensures(V::handle_key_event, (overlay, host, key_event), ())
                    && final(self).scheduled_redraws() == final(host).scheduled_redraws() + 1,
            final(self).scheduled_redraws() >= 1,
            final(self).redraw_owed(),
    {
        view.handle_key_event(self, key_event);
        self.request_redraw();
    }
}

} // verus!
