//! One candidate at a time: the offer, and the step that follows its answer.

use bottom_pane::offer::after_answer;
use bottom_pane::offer::offer_to;
use bottom_pane::offer::OfferStep;
use bottom_pane::ApprovalRequest;
use bottom_pane::BottomPane;
use bottom_pane::BottomPaneView;
use bottom_pane::CancellationEvent;
use bottom_pane::Spacer;
use crossterm::event::KeyCode;
use crossterm::event::KeyEvent;
use crossterm::event::KeyModifiers;
use ratatui::buffer::Buffer;
use ratatui::layout::Rect;

fn pending(id: &str) -> ApprovalRequest {
    ApprovalRequest { id: id.to_string(), prompt: String::new() }
}

/// Claims the requests whose id it was told to wait for.
struct WaitsFor {
    id: &'static str,
    claimed: Vec<ApprovalRequest>,
}

impl BottomPaneView for WaitsFor {
    fn desired_height(&self, _width: u16) -> u16 {
        1
    }

    fn render(&self, _area: Rect, _buf: &mut Buffer) {}

    fn try_consume_approval_request(&mut self, request: ApprovalRequest) -> Option<ApprovalRequest> {
        if request.id == self.id {
            self.claimed.push(request);
            None
        } else {
            Some(request)
        }
    }
}

fn claimed_by(step: &OfferStep) -> Option<usize> {
    match step {
        OfferStep::Claimed(by) => Some(*by),
        _ => None,
    }
}

fn passed_on(step: OfferStep) -> Option<(usize, ApprovalRequest)> {
    match step {
        OfferStep::AskNext(then, back) => Some((then, back)),
        _ => None,
    }
}

fn given_back(step: OfferStep) -> Option<ApprovalRequest> {
    match step {
        OfferStep::Declined(back) => Some(back),
        _ => None,
    }
}

#[test]
fn claim_ends_the_offer_at_the_candidate_asked() {
    assert_eq!(claimed_by(&after_answer(0, 3, None)), Some(0));
    assert_eq!(claimed_by(&after_answer(2, 3, None)), Some(2));
    assert_eq!(claimed_by(&after_answer(0, 1, None)), Some(0));
}

#[test]
fn declined_request_goes_to_the_next_candidate() {
    assert_eq!(passed_on(after_answer(0, 3, Some(pending("r-1")))), Some((1, pending("r-1"))));
    assert_eq!(passed_on(after_answer(1, 3, Some(pending("r-1")))), Some((2, pending("r-1"))));
}

#[test]
fn declined_by_the_last_candidate_goes_back() {
    assert_eq!(given_back(after_answer(2, 3, Some(pending("r-1")))), Some(pending("r-1")));
    assert_eq!(given_back(after_answer(0, 1, Some(pending("r-2")))), Some(pending("r-2")));
}

#[test]
fn step_at_the_limits_of_the_machine() {
    assert_eq!(given_back(after_answer(usize::MAX, usize::MAX, Some(pending("r-1")))), Some(pending("r-1")));
    assert_eq!(given_back(after_answer(0, 0, Some(pending("r-1")))), Some(pending("r-1")));
    assert_eq!(
        passed_on(after_answer(usize::MAX - 2, usize::MAX, Some(pending("r-1")))),
        Some((usize::MAX - 1, pending("r-1")))
    );
    assert_eq!(claimed_by(&after_answer(usize::MAX, 0, None)), Some(usize::MAX));
}

#[test]
fn offer_to_a_candidate_that_claims() {
    let mut view = WaitsFor { id: "r-1", claimed: Vec::new() };

    assert_eq!(claimed_by(&offer_to(&mut view, 1, 3, pending("r-1"))), Some(1));
    assert_eq!(view.claimed, vec![pending("r-1")]);
}

#[test]
fn offer_to_a_candidate_that_declines() {
    let mut view = WaitsFor { id: "r-1", claimed: Vec::new() };

    assert_eq!(passed_on(offer_to(&mut view, 1, 3, pending("r-2"))), Some((2, pending("r-2"))));
    assert_eq!(given_back(offer_to(&mut view, 2, 3, pending("r-3"))), Some(pending("r-3")));
    assert!(view.claimed.is_empty());
}

#[test]
fn offer_to_a_trait_object() {
    let mut view: Box<dyn BottomPaneView> = Box::new(WaitsFor { id: "r-1", claimed: Vec::new() });

    assert_eq!(given_back(offer_to(view.as_mut(), 0, 1, pending("r-2"))), Some(pending("r-2")));
    assert_eq!(claimed_by(&offer_to(view.as_mut(), 0, 1, pending("r-1"))), Some(0));
}

#[test]
fn spacer_reserves_its_lines_at_every_width() {
    let view = Spacer { lines: 3 };
    assert_eq!(view.desired_height(0), 3);
    assert_eq!(view.desired_height(1), 3);
    assert_eq!(view.desired_height(u16::MAX), 3);
    assert_eq!(Spacer { lines: 0 }.desired_height(80), 0);
}

#[test]
fn spacer_paints_nothing() {
    let view = Spacer { lines: 2 };
    let mut buf = Buffer::with_lines(["abc", "def"]);

    view.render(Rect::new(0, 0, 3, 2), &mut buf);
    assert_eq!(buf, Buffer::with_lines(["abc", "def"]));
}

#[test]
fn spacer_keeps_every_provided_body() {
    let mut view = Spacer { lines: 2 };
    let mut pane = BottomPane::new();

    view.handle_key_event(&mut pane, KeyEvent::new(KeyCode::Enter, KeyModifiers::NONE));
    assert!(!view.is_complete());
    assert_eq!(view.on_ctrl_c(&mut pane), CancellationEvent::Ignored);
    view.update_status_header("Thinking".to_string());
    view.update_status_text("step 3 of 5".to_string());
    assert!(!view.should_hide_when_task_is_done());
    assert_eq!(view.try_consume_approval_request(pending("r-1")), Some(pending("r-1")));
    assert_eq!(given_back(offer_to(&mut view, 0, 1, pending("r-1"))), Some(pending("r-1")));
    assert_eq!(view, Spacer { lines: 2 });
    assert!(!pane.take_scheduled_redraw());
}

#[test]
fn overlay_that_ignores_cancellation_is_left_as_it_was() {
    let mut view = WaitsFor { id: "r-1", claimed: vec![pending("r-1")] };
    let mut pane = BottomPane::new();
    pane.request_redraw();

    assert_eq!(view.on_ctrl_c(&mut pane), CancellationEvent::Ignored);
    assert_eq!(view.claimed, vec![pending("r-1")]);
    assert!(pane.take_scheduled_redraw());
    assert!(!pane.take_scheduled_redraw());
}
