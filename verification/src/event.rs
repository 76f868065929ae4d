//! The events a poll handle delivers, and the feed they form.

use vstd::prelude::*;

verus! {

/// One event delivered by a successful poll.
#[derive(Debug, Clone, PartialEq, Eq)]
pub enum Event {
    /// An incoming publish, with its payload bytes.
    Publish(Vec<u8>),
    /// Any other event: a control packet, or a note of outgoing traffic.
    Other,
}

/// Why a search for the next payload gave none.
#[derive(Debug, Clone, PartialEq, Eq)]
pub enum PollError<E> {
    /// The retry budget ran out before a publish arrived. Recoverable.
    TimedOut,
    /// A poll itself failed. Terminal.
    Transport(E),
}

/// Text that describes [`PollError::TimedOut`] where an error message is wanted.
pub const TIMED_OUT_MESSAGE: &'static str = "get_payload timed out";

/// What one poll yields, as a mathematical value.
pub enum Polled<E> {
    /// A publish with these payload bytes.
    Publish(Seq<u8>),
    /// An event that carries no payload.
    Control,
    /// The poll failed with this error.
    Failed(E),
}

/// The mathematical value of one poll's result.
pub open spec fn polled<E>(result: Result<Event, E>) -> Polled<E> {
    match result {
        Ok(Event::Publish(payload)) => Polled::Publish(payload@),
        Ok(Event::Other) => Polled::Control,
        Err(e) => Polled::Failed(e),
    }
}

/// The feed that a sequence of poll results forms.
pub open spec fn feed_of<E>(results: Seq<Result<Event, E>>) -> Seq<Polled<E>> {
    results.map_values(|result: Result<Event, E>| polled(result))
}

/// Number of control events at the front of `feed`, before the first publish
/// or failure.
pub open spec fn leading_controls<E>(feed: Seq<Polled<E>>) -> nat
    decreases feed.len(),
{
    if feed.len() > 0 && feed[0] is Control {
        1 + leading_controls(feed.drop_first())
    } else {
        0
    }
}

/// `leading_controls` is the one index that has only control events before
/// it and no control event at it.
pub proof fn lemma_leading_controls<E>(feed: Seq<Polled<E>>, k: int)
    requires
        0 <= k <= feed.len(),
        forall|i: int| 0 <= i < k ==> feed[i] is Control,
        k < feed.len() ==> !(feed[k] is Control),
    ensures
        leading_controls(feed) == k,
    decreases feed.len(),
{
    if k > 0 {
        let rest = feed.drop_first();
        assert(forall|i: int| 0 <= i < k - 1 ==> rest[i] is Control);
        lemma_leading_controls(rest, k - 1);
    }
}

/// The events counted by `leading_controls` lie inside the feed and are all
/// control events, and the event after them, if any, is not.
pub proof fn lemma_leading_controls_bounds<E>(feed: Seq<Polled<E>>)
    ensures
        leading_controls(feed) <= feed.len(),
        forall|i: int| 0 <= i < leading_controls(feed) ==> feed[i] is Control,
        leading_controls(feed) < feed.len() ==> !(feed[leading_controls(feed) as int] is Control),
    decreases feed.len(),
{
    if feed.len() > 0 && feed[0] is Control {
        let rest = feed.drop_first();
        lemma_leading_controls_bounds(rest);
        let k = leading_controls(feed);
        assert forall|i: int| 0 <= i < k implies feed[i] is Control by {
            if i > 0 {
                assert(feed[i] == rest[i - 1]);
            }
        }
    }
}

} // verus!
