//! What an overlay answers when it is offered a cancellation signal.

use vstd::prelude::*;

verus! {

/// The answer of an overlay to a cancellation signal such as Ctrl-C.
///
/// The offer is synchronous and its answer is one of exactly two values:
/// nothing is cancelled in part or later.
#[derive(Clone, Copy, Debug, PartialEq, Eq, Structural)]
pub enum CancellationEvent {
    /// The overlay took no action. The host is free to apply its own default:
    /// tear the overlay down, or pass the signal on.
    Ignored,
    /// The overlay consumed the signal, for instance by dismissing itself.
    /// The host must not pass it on.
    Handled,
}

/// Every answer is `Handled` or `Ignored`, and the two differ: a host that
/// tests for one of them has decided the other.
pub proof fn lemma_outcome_is_one_of_two(outcome: CancellationEvent)
    ensures
        outcome == CancellationEvent::Handled || outcome == CancellationEvent::Ignored,
        !(outcome == CancellationEvent::Handled && outcome == CancellationEvent::Ignored),
{
}

} // verus!
