//! The poll-retry loop: a bounded search for the next payload in the feed.
//!
//! The loop polls at most `budget` times. The first publish ends it with the
//! payload, the first failed poll ends it with that failure, and every other
//! event uses up one unit of the budget. When the budget is used up the loop
//! ends with [`PollError::TimedOut`].
//!
//! [`RetryLoop`] holds the decisions of the loop for a driver that does the
//! polling; [`EventSource::get_payload`] runs them over a recorded feed.

use crate::event::{feed_of, leading_controls, lemma_leading_controls, lemma_leading_controls_bounds, polled, Event, PollError, Polled};
use crate::session::EventSource;
use std::collections::VecDeque;
use vstd::prelude::*;

verus! {

/// How one run of the loop over a feed ends.
pub enum Attempt<E> {
    /// A publish arrived within the budget; these are its payload bytes.
    Payload(Seq<u8>),
    /// The budget ran out first.
    TimedOut,
    /// A poll failed within the budget, with this error.
    Failed(E),
    /// The feed ran dry first: the loop waits for its next event.
    Pending,
}

/// How a run over `feed` with `budget` polls ends.
pub open spec fn attempt<E>(feed: Seq<Polled<E>>, budget: nat) -> Attempt<E> {
    let k = leading_controls(feed);
    if k >= budget {
        Attempt::TimedOut
    } else if k >= feed.len() {
        Attempt::Pending
    } else {
        match feed[k as int] {
            Polled::Publish(payload) => Attempt::Payload(payload),
            Polled::Failed(e) => Attempt::Failed(e),
            Polled::Control => Attempt::Pending,
        }
    }
}

/// How many events of `feed` a run with `budget` polls takes.
pub open spec fn polls_made<E>(feed: Seq<Polled<E>>, budget: nat) -> nat {
    let k = leading_controls(feed);
    if k >= budget {
        budget
    } else if k >= feed.len() {
        feed.len()
    } else {
        k + 1
    }
}

/// The mathematical value of what a run handed back: `None` while it waits.
pub open spec fn attempt_of<E>(outcome: Option<Result<Vec<u8>, PollError<E>>>) -> Attempt<E> {
    match outcome {
        None => Attempt::Pending,
        Some(Ok(payload)) => Attempt::Payload(payload@),
        Some(Err(PollError::TimedOut)) => Attempt::TimedOut,
        Some(Err(PollError::Transport(e))) => Attempt::Failed(e),
    }
}

/// The state of a loop that is about to poll: its budget and the number of
/// polls it has made, which is below the budget.
#[derive(Debug, PartialEq, Eq)]
pub struct RetryLoop {
    budget: usize,
    polls: usize,
}

/// What the driver of a loop does next.
#[derive(Debug, PartialEq, Eq)]
pub enum Action<E> {
    /// Poll once and hand the result to [`RetryLoop::on_polled`] of this state.
    Poll(RetryLoop),
    /// Stop polling: the loop has ended with this result.
    Done(Result<Vec<u8>, PollError<E>>),
}

impl RetryLoop {
    #[verifier::type_invariant]
    spec fn poll_is_due(self) -> bool {
        self.polls < self.budget
    }

    /// The number of polls the loop may make in all.
    pub closed spec fn budget(self) -> nat {
        self.budget as nat
    }

    /// The number of polls the loop has made.
    pub closed spec fn polls(self) -> nat {
        self.polls as nat
    }

    /// Begins a loop with `budget` polls. With no budget the loop ends at
    /// once, timed out, and nothing is polled.
    pub fn start<E>(budget: usize) -> (action: Action<E>)
        ensures
            budget == 0 ==> action == Action::<E>::Done(Err(PollError::TimedOut)),
            budget > 0 ==> (action matches Action::Poll(state) && state.budget() == budget
                && state.polls() == 0),
    {
        if budget == 0 {
            Action::Done(Err(PollError::TimedOut))
        } else {
            Action::Poll(RetryLoop { budget, polls: 0 })
        }
    }

    /// Takes the result of the poll that this state asked for and decides
    /// how the loop goes on.
    ///
    /// A publish ends the loop with its payload and a failed poll ends it
    /// with the failure. Any other event counts as one more poll made, and
    /// the loop polls again unless that was the last poll of the budget.
    pub fn on_polled<E>(self, result: Result<Event, E>) -> (action: Action<E>)
        ensures
            match result {
                Ok(Event::Publish(payload)) => action == Action::<E>::Done(Ok(payload)),
                Err(e) => action == Action::Done(Err(PollError::Transport(e))),
                Ok(Event::Other) => if self.polls() + 1 < self.budget() {
                    action matches Action::Poll(next) && next.budget() == self.budget()
                        && next.polls() == self.polls() + 1
                } else {
                    action == Action::<E>::Done(Err(PollError::TimedOut))
                },
            },
    {
        proof {
            use_type_invariant(&self);
        }
        match result {
            Ok(Event::Publish(payload)) => Action::Done(Ok(payload)),
            Err(e) => Action::Done(Err(PollError::Transport(e))),
            Ok(Event::Other) => {
                let polls: usize = self.polls + 1;
                if polls < self.budget {
                    Action::Poll(RetryLoop { budget: self.budget, polls })
                } else {
                    Action::Done(Err(PollError::TimedOut))
                }
            },
        }
    }
}

/// A run never polls more often than its budget allows nor takes more than
/// the feed holds, every event it takes before its last is a control event,
/// and its outcome is read off the last event it takes: a payload is the
/// payload of a publish, a failure is the error of a failed poll, a timeout
/// comes after exactly `budget` control events, and a run that waits has
/// seen fewer than `budget` events, all of them control events.
pub proof fn law_attempt_reads_feed<E>(feed: Seq<Polled<E>>, budget: nat)
    ensures
        polls_made(feed, budget) <= budget,
        polls_made(feed, budget) <= feed.len(),
        forall|i: int| 0 <= i < polls_made(feed, budget) - 1 ==> feed[i] is Control,
        match attempt(feed, budget) {
            Attempt::Payload(payload) => polls_made(feed, budget) > 0 && feed[polls_made(
                feed,
                budget,
            ) - 1] == Polled::<E>::Publish(payload),
            Attempt::Failed(e) => polls_made(feed, budget) > 0 && feed[polls_made(feed, budget)
                - 1] == Polled::Failed(e),
            Attempt::TimedOut => polls_made(feed, budget) == budget && (budget > 0 ==> feed[budget
                - 1] is Control),
            Attempt::Pending => polls_made(feed, budget) == feed.len() && feed.len() < budget && (
            feed.len() > 0 ==> feed.last() is Control),
        },
{
    lemma_leading_controls_bounds(feed);
}

/// The loop returns the payload of the first publish among the events it may
/// poll: a publish at position `k`, within the budget and with only control
/// events before it, ends the run with its payload after exactly `k + 1`
/// polls.
pub proof fn law_first_publish<E>(feed: Seq<Polled<E>>, budget: nat, k: int, payload: Seq<u8>)
    requires
        0 <= k < feed.len(),
        k < budget,
        forall|i: int| 0 <= i < k ==> feed[i] is Control,
        feed[k] == Polled::<E>::Publish(payload),
    ensures
        attempt(feed, budget) == Attempt::<E>::Payload(payload),
        polls_made(feed, budget) == k + 1,
{
    lemma_leading_controls(feed, k);
}

/// A failed poll is not retried: a failure at position `k`, within the
/// budget and with only control events before it, ends the run with that
/// failure after exactly `k + 1` polls.
pub proof fn law_first_failure<E>(feed: Seq<Polled<E>>, budget: nat, k: int, e: E)
    requires
        0 <= k < feed.len(),
        k < budget,
        forall|i: int| 0 <= i < k ==> feed[i] is Control,
        feed[k] == Polled::Failed(e),
    ensures
        attempt(feed, budget) == Attempt::Failed(e),
        polls_made(feed, budget) == k + 1,
{
    lemma_leading_controls(feed, k);
}

/// When the first `budget` events are all control events, the run times out
/// after exactly `budget` polls.
pub proof fn law_timeout<E>(feed: Seq<Polled<E>>, budget: nat)
    requires
        budget <= feed.len(),
        forall|i: int| 0 <= i < budget ==> feed[i] is Control,
    ensures
        attempt(feed, budget) == Attempt::<E>::TimedOut,
        polls_made(feed, budget) == budget,
{
    lemma_leading_controls_bounds(feed);
}

/// With a budget of zero the run times out at once, whatever the feed holds,
/// and polls nothing.
pub proof fn law_zero_budget<E>(feed: Seq<Polled<E>>)
    ensures
        attempt(feed, 0) == Attempt::<E>::TimedOut,
        polls_made(feed, 0) == 0,
{
}

/// A run that has ended is settled: more events at the end of the feed
/// change neither its outcome nor what it took.
pub proof fn law_attempt_is_settled<E>(feed: Seq<Polled<E>>, more: Seq<Polled<E>>, budget: nat)
    requires
        !(attempt(feed, budget) is Pending),
    ensures
        attempt(feed + more, budget) == attempt(feed, budget),
        polls_made(feed + more, budget) == polls_made(feed, budget),
{
    lemma_leading_controls_bounds(feed);
    let k = leading_controls(feed) as int;
    let whole = feed + more;
    if k >= budget {
        assert(forall|i: int| 0 <= i < budget ==> whole[i] is Control);
        lemma_leading_controls_bounds(whole);
    } else {
        assert(forall|i: int| 0 <= i < k ==> whole[i] is Control);
        lemma_leading_controls(whole, k);
    }
}

impl EventSource {
    /// Runs the poll-retry loop over a recorded feed, taking the events it
    /// polls from the front of `feed`.
    ///
    /// Returns the payload of the first publish among the first `retries`
    /// events, or the failure of the first failed poll among them, whichever
    /// comes first, and takes the events up to and including that one. When
    /// the first `retries` events are neither, it takes exactly those and
    /// returns [`PollError::TimedOut`]. When the feed runs dry before any of
    /// this, it takes all of it and returns `None`.
    pub fn get_payload<E>(feed: &mut VecDeque<Result<Event, E>>, retries: usize) -> (outcome:
        Option<Result<Vec<u8>, PollError<E>>>)
        ensures
            attempt_of(outcome) == attempt(feed_of(old(feed)@), retries as nat),
            final(feed)@ == old(feed)@.skip(
                polls_made(feed_of(old(feed)@), retries as nat) as int,
            ),
    {
        let ghost whole = feed@;
        let mut action: Action<E> = RetryLoop::start(retries);
        loop
            invariant
                whole == old(feed)@,
                action matches Action::Poll(state) ==> {
                    &&& state.budget() == retries
                    &&& state.polls() < retries
                    &&& state.polls() <= whole.len()
                    &&& feed@ == whole.skip(state.polls() as int)
                    &&& forall|i: int| 0 <= i < state.polls() ==> feed_of(whole)[i] is Control
                },
                action matches Action::Done(result) ==> {
                    &&& attempt_of(Some(result)) == attempt(feed_of(whole), retries as nat)
                    &&& feed@ == whole.skip(polls_made(feed_of(whole), retries as nat) as int)
                },
            decreases feed@.len(),
        {
            match action {
                Action::Done(result) => {
                    return Some(result);
                },
                Action::Poll(state) => {
                    let ghost n = state.polls() as int;
                    match feed.pop_front() {
                        None => {
                            proof {
                                lemma_leading_controls(feed_of(whole), n);
                            }
                            return None;
                        },
                        Some(result) => {
                            proof {
                                if polled(result) is Control {
                                    if n + 1 >= retries {
                                        lemma_leading_controls_bounds(feed_of(whole));
                                    }
                                } else {
                                    lemma_leading_controls(feed_of(whole), n);
                                }
                            }
                            action = state.on_polled(result);
                        },
                    }
                },
            }
        }
    }
}

} // verus!
