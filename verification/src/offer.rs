//! Offering an approval request to a chain of overlays.
//!
//! A request is handed from candidate to candidate until one claims it. A
//! candidate that declines hands the request back unchanged, so one value
//! travels down the chain and nothing is copied.

use crate::approval::ApprovalRequest;
use crate::view::BottomPaneView;
use vstd::prelude::*;

verus! {

/// What the host does once a candidate has answered an offer.
pub enum OfferStep {
    /// The candidate at this place has claimed the request: the offer ends.
    Claimed(usize),
    /// The candidate has declined and another stands behind it: the request
    /// goes to the candidate at this place.
    AskNext(usize, ApprovalRequest),
    /// The last candidate has declined: the request goes back to the caller.
    Declined(ApprovalRequest),
}

/// The step that follows when the candidate at place `asked`, one of
/// `candidates`, has given `answer`.
pub open spec fn step_after(
    asked: usize,
    candidates: usize,
    answer: Option<ApprovalRequest>,
) -> OfferStep {
    match answer {
        None => OfferStep::Claimed(asked),
        Some(back) => if asked + 1 < candidates {
            OfferStep::AskNext((asked + 1) as usize, back)
        } else {
            OfferStep::Declined(back)
        },
    }
}

/// Whether `answer` is an answer that `overlay` gives when it is offered
/// `request`. The reference stands for the overlay as the offer finds it
/// and as the offer leaves it.
pub open spec fn answers<V: BottomPaneView + ?Sized>(
    overlay: &mut V,
    request: ApprovalRequest,
    answer: Option<ApprovalRequest>,
) -> bool {
    call_ensures(V::try_consume_approval_request, (overlay, request), answer)
}

/// Whether `place` is the place of a candidate that stands before the place
/// `end`.
pub open spec fn comes_before(place: int, end: int) -> bool {
    0 <= place < end
}

/// Decides the step that follows the answer of the candidate at place
/// `asked`, one of `candidates`: a claim ends the offer, a declined request
/// goes to the next candidate, and behind the last one back to the caller.
pub fn after_answer(
    asked: usize,
    candidates: usize,
    answer: Option<ApprovalRequest>,
) -> (step: OfferStep)
    ensures
        step == step_after(asked, candidates, answer),
{
    match answer {
        None => OfferStep::Claimed(asked),
        Some(back) => {
            if candidates > 0 && asked < candidates - 1 {
                OfferStep::AskNext(asked + 1, back)
            } else {
                OfferStep::Declined(back)
            }
        },
    }
}

/// Offers `request` to one candidate, the one at place `asked` of
/// `candidates`, and decides the step that follows.
///
/// The candidate is handed the request as it came in, it leaves as the
/// offer left it, and the step is the one that [`step_after`] gives for its
/// answer. A request that travels on or back is the request that came in.
pub fn offer_to<V: BottomPaneView + ?Sized>(
    view: &mut V,
    asked: usize,
    candidates: usize,
    request: ApprovalRequest,
) -> (step: OfferStep)
    ensures
        exists|overlay: &mut V, answer: Option<ApprovalRequest>|
            &*overlay == &*old(view)
                && &*final(overlay) == &*final(view)
                && #[trigger] answers(overlay, request, answer)
                && step == step_after(asked, candidates, answer),
        step matches OfferStep::AskNext(_, back) ==> back == request,
        step matches OfferStep::Declined(back) ==> back == request,
{
    let answer = view.try_consume_approval_request(request);
    assert(forall|overlay: &mut V, given: Option<ApprovalRequest>| #[trigger]
        call_ensures(V::try_consume_approval_request, (overlay, request), given) ==> answers(
            overlay,
            request,
            given,
        ));
    after_answer(asked, candidates, answer)
}

/// Offers `request` to the overlays in `views` in order, the first having
/// the highest priority, and stops at the first that claims it.
///
/// `Ok` names the overlay that has claimed the request and now owns it.
/// Every overlay before it was offered the request as it came in and has
/// declined; the overlays behind it were not asked and are as they were.
/// `Err` means that every overlay was offered the request as it came in
/// and has declined, and hands the request back unchanged. With no overlay
/// to ask the request always comes back.
pub fn offer_approval_request(
    views: &mut [Box<dyn BottomPaneView>],
    request: ApprovalRequest,
) -> (outcome: Result<usize, ApprovalRequest>)
    ensures
        final(views).len() == old(views).len(),
        match outcome {
            Ok(claimant) => {
                &&& claimant < old(views).len()
                &&& forall|earlier: int| #[trigger]
                    comes_before(earlier, claimant as int) ==> exists|overlay: &mut dyn BottomPaneView|
                        &*overlay == &*old(views)[earlier]
                            && &*final(overlay) == &*final(views)[earlier]
                            && #[trigger] answers(overlay, request, Some(request))
                &&& exists|overlay: &mut dyn BottomPaneView|
                    &*overlay == &*old(views)[claimant as int]
                        && &*final(overlay) == &*final(views)[claimant as int]
                        && #[trigger] answers(overlay, request, None)
                &&& forall|later: int|
                    claimant < later < old(views).len() ==> final(views)[later] == old(views)[later]
            },
            Err(returned) => {
                &&& returned == request
                &&& forall|each: int| #[trigger]
                    comes_before(each, old(views).len() as int) ==> exists|overlay: &mut dyn BottomPaneView|
                        &*overlay == &*old(views)[each]
                            && &*final(overlay) == &*final(views)[each]
                            && #[trigger] answers(overlay, request, Some(request))
            },
        },
{
    if views.len() == 0 {
        return Err(request);
    }
    let mut pending = request;
    let mut next: usize = 0;
    loop
        invariant
            pending == request,
            views.len() == old(views).len(),
            next < views.len(),
            forall|earlier: int| #[trigger]
                comes_before(earlier, next as int) ==> exists|overlay: &mut dyn BottomPaneView|
                    &*overlay == &*old(views)[earlier]
                        && &*final(overlay) == &*views[earlier]
                        && #[trigger] answers(overlay, request, Some(request)),
            forall|later: int| next <= later < views.len() ==> views[later] == old(views)[later],
        decreases views.len() - next,
    {
        let candidates = views.len();
        let ghost before = views@;
        let step = offer_to(&mut *views[next], next, candidates, pending);
        // The overlays asked earlier are where the call found them.
        assert forall|earlier: int| #[trigger] comes_before(earlier, next as int) implies exists|overlay: &mut dyn BottomPaneView|
            &*overlay == &*old(views)[earlier]
                && &*final(overlay) == &*views[earlier]
                && #[trigger] answers(overlay, request, Some(request)) by {
            assert(views@[earlier] == before[earlier]);
        }
        match step {
            OfferStep::Claimed(by) => {
                return Ok(by);
            },
            OfferStep::AskNext(then, back) => {
                assert forall|earlier: int| #[trigger]
                    comes_before(earlier, then as int) implies exists|overlay: &mut dyn BottomPaneView|
                    &*overlay == &*old(views)[earlier]
                        && &*final(overlay) == &*views[earlier]
                        && #[trigger] answers(overlay, request, Some(request)) by {
                    if earlier < next {
                        assert(comes_before(earlier, next as int));
                    }
                }
                next = then;
                pending = back;
            },
            OfferStep::Declined(back) => {
                assert forall|each: int| #[trigger]
                    comes_before(each, candidates as int) implies exists|overlay: &mut dyn BottomPaneView|
                    &*overlay == &*old(views)[each]
                        && &*final(overlay) == &*views[each]
                        && #[trigger] answers(overlay, request, Some(request)) by {
                    if each < next {
                        assert(comes_before(each, next as int));
                    }
                }
                return Err(back);
            },
        }
    }
}

} // verus!
