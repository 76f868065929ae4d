use rs_mqtt2jsons::{Action, Event, EventSource, PollError, RetryLoop, TIMED_OUT_MESSAGE};
use std::collections::VecDeque;

type Polled = Result<Event, String>;

fn control() -> Polled {
    Ok(Event::Other)
}

fn publish(text: &str) -> Polled {
    Ok(Event::Publish(text.as_bytes().to_vec()))
}

fn failure(text: &str) -> Polled {
    Err(String::from(text))
}

fn feed(events: Vec<Polled>) -> VecDeque<Polled> {
    VecDeque::from(events)
}

fn poll_state(action: Action<String>) -> RetryLoop {
    match action {
        Action::Poll(state) => state,
        Action::Done(result) => panic!("the loop ended with {:?}", result),
    }
}

#[test]
fn budget_three_returns_second_event_after_two_polls() {
    let mut f = feed(vec![control(), publish("a"), control()]);
    let outcome = EventSource::get_payload(&mut f, 3);
    assert_eq!(outcome, Some(Ok(b"a".to_vec())));
    assert_eq!(f.len(), 1);
    assert_eq!(f, feed(vec![control()]));
}

#[test]
fn budget_two_over_two_controls_times_out() {
    let mut f = feed(vec![control(), control()]);
    let outcome = EventSource::get_payload(&mut f, 2);
    assert_eq!(outcome, Some(Err(PollError::TimedOut)));
    assert!(f.is_empty());
}

#[test]
fn budget_zero_times_out_without_polling() {
    let mut f = feed(vec![publish("a"), control()]);
    let outcome = EventSource::get_payload(&mut f, 0);
    assert_eq!(outcome, Some(Err(PollError::TimedOut)));
    assert_eq!(f, feed(vec![publish("a"), control()]));
}

#[test]
fn budget_zero_over_empty_feed_times_out() {
    let mut f = feed(vec![]);
    assert_eq!(EventSource::get_payload(&mut f, 0), Some(Err(PollError::TimedOut)));
}

#[test]
fn publish_beyond_the_budget_is_not_reached() {
    let mut f = feed(vec![control(), control(), publish("late")]);
    let outcome = EventSource::get_payload(&mut f, 2);
    assert_eq!(outcome, Some(Err(PollError::TimedOut)));
    assert_eq!(f, feed(vec![publish("late")]));
}

#[test]
fn publish_at_the_last_poll_of_the_budget_is_returned() {
    let mut f = feed(vec![control(), control(), publish("last")]);
    let outcome = EventSource::get_payload(&mut f, 3);
    assert_eq!(outcome, Some(Ok(b"last".to_vec())));
    assert!(f.is_empty());
}

#[test]
fn first_publish_wins_over_later_ones() {
    let mut f = feed(vec![publish("one"), publish("two")]);
    assert_eq!(EventSource::get_payload(&mut f, 5), Some(Ok(b"one".to_vec())));
    assert_eq!(f, feed(vec![publish("two")]));
    assert_eq!(EventSource::get_payload(&mut f, 5), Some(Ok(b"two".to_vec())));
    assert!(f.is_empty());
}

#[test]
fn failed_poll_is_not_retried() {
    let mut f = feed(vec![control(), failure("link down"), publish("a")]);
    let outcome = EventSource::get_payload(&mut f, 5);
    assert_eq!(outcome, Some(Err(PollError::Transport(String::from("link down")))));
    assert_eq!(f, feed(vec![publish("a")]));
}

#[test]
fn failed_poll_before_a_publish_wins() {
    let mut f = feed(vec![failure("boom"), publish("a")]);
    let outcome = EventSource::get_payload(&mut f, 2);
    assert_eq!(outcome, Some(Err(PollError::Transport(String::from("boom")))));
}

#[test]
fn failed_poll_beyond_the_budget_is_not_reached() {
    let mut f = feed(vec![control(), failure("boom")]);
    assert_eq!(EventSource::get_payload(&mut f, 1), Some(Err(PollError::TimedOut)));
    assert_eq!(f, feed(vec![failure("boom")]));
}

#[test]
fn feed_that_runs_dry_leaves_the_loop_waiting() {
    let mut f = feed(vec![control(), control()]);
    assert_eq!(EventSource::get_payload(&mut f, 3), None);
    assert!(f.is_empty());
}

#[test]
fn empty_feed_leaves_the_loop_waiting() {
    let mut f = feed(vec![]);
    assert_eq!(EventSource::get_payload(&mut f, 1), None);
}

#[test]
fn empty_payload_is_a_payload() {
    let mut f = feed(vec![publish("")]);
    assert_eq!(EventSource::get_payload(&mut f, 1), Some(Ok(Vec::new())));
}

#[test]
fn payload_bytes_are_handed_over_unchanged() {
    let bytes: Vec<u8> = vec![0, 255, 128, 10, 13];
    let mut f: VecDeque<Polled> = feed(vec![Ok(Event::Publish(bytes.clone()))]);
    assert_eq!(EventSource::get_payload(&mut f, 1), Some(Ok(bytes)));
}

#[test]
fn start_with_zero_budget_is_done_at_once() {
    let action: Action<String> = RetryLoop::start(0);
    assert_eq!(action, Action::Done(Err(PollError::TimedOut)));
}

#[test]
fn start_with_budget_asks_for_a_poll() {
    let action: Action<String> = RetryLoop::start(1);
    assert!(matches!(action, Action::Poll(_)));
}

#[test]
fn on_polled_publish_ends_with_the_payload() {
    let state = poll_state(RetryLoop::start(3));
    assert_eq!(state.on_polled(publish("a")), Action::Done(Ok(b"a".to_vec())));
}

#[test]
fn on_polled_failure_ends_with_the_failure() {
    let state = poll_state(RetryLoop::start(3));
    assert_eq!(
        state.on_polled(failure("boom")),
        Action::Done(Err(PollError::Transport(String::from("boom"))))
    );
}

#[test]
fn on_polled_control_polls_again_until_the_budget_is_used_up() {
    let state = poll_state(RetryLoop::start(3));
    let state = poll_state(state.on_polled(control()));
    let state = poll_state(state.on_polled(control()));
    assert_eq!(state.on_polled(control()), Action::Done(Err(PollError::TimedOut)));
}

#[test]
fn on_polled_control_with_budget_one_times_out() {
    let state = poll_state(RetryLoop::start(1));
    assert_eq!(state.on_polled(control()), Action::Done(Err(PollError::TimedOut)));
}

#[test]
fn driving_the_loop_by_hand_polls_twice() {
    let mut polls = 0;
    let mut events = vec![control(), publish("a"), control()].into_iter();
    let mut action: Action<String> = RetryLoop::start(3);
    let result = loop {
        match action {
            Action::Done(result) => break result,
            Action::Poll(state) => {
                polls += 1;
                action = state.on_polled(events.next().unwrap());
            }
        }
    };
    assert_eq!(result, Ok(b"a".to_vec()));
    assert_eq!(polls, 2);
}

#[test]
fn timed_out_message_text() {
    assert_eq!(TIMED_OUT_MESSAGE, "get_payload timed out");
}
