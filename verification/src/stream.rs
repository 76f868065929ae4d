//! The stream adapter: the lazily pulled sequence of payloads that is layered
//! on the poll-retry loop.
//!
//! Each pull runs the poll-retry loop until it gives something to emit. A
//! payload is emitted and the stream goes on. A timeout is absorbed: nothing
//! is emitted for it and the loop is run again. A failed poll is emitted as
//! the last item, and the stream has ended for good.
//!
//! [`StreamAdapter`] holds these decisions for a driver that does the
//! polling; [`StreamAdapter::drain`] runs them over a recorded feed.

use crate::event::{feed_of, leading_controls, lemma_leading_controls_bounds, Event, PollError, Polled};
use crate::retry::{attempt, polls_made, Attempt};
use crate::session::EventSource;
use rumqttc::EventLoop;
use std::collections::VecDeque;
use vstd::prelude::*;

verus! {

/// The items that a stream over `feed` emits, in order: the payload of each
/// publish up to the first failed poll, and after them the error of that
/// poll, if there is one. Control events leave no trace.
pub open spec fn emitted<E>(feed: Seq<Polled<E>>) -> Seq<Result<Seq<u8>, E>>
    decreases feed.len(),
{
    if feed.len() == 0 {
        Seq::empty()
    } else {
        match feed[0] {
            Polled::Publish(payload) => seq![Ok(payload)] + emitted(feed.drop_first()),
            Polled::Control => emitted(feed.drop_first()),
            Polled::Failed(e) => seq![Err(e)],
        }
    }
}

/// How many events of `feed` a stream takes: those up to and including the
/// first failed poll, or all of them where no poll fails.
pub open spec fn taken<E>(feed: Seq<Polled<E>>) -> nat
    decreases feed.len(),
{
    if feed.len() == 0 {
        0
    } else if feed[0] is Failed {
        1
    } else {
        1 + taken(feed.drop_first())
    }
}

/// Whether a stream over `feed` ends: whether the last event it takes is a
/// failed poll.
pub open spec fn fails<E>(feed: Seq<Polled<E>>) -> bool {
    taken(feed) > 0 && feed[taken(feed) - 1] is Failed
}

/// The mathematical value of a sequence of emitted items.
pub open spec fn payloads_of<E>(items: Seq<Result<Vec<u8>, E>>) -> Seq<Result<Seq<u8>, E>> {
    items.map_values(
        |item: Result<Vec<u8>, E>|
            match item {
                Ok(payload) => Ok(payload@),
                Err(e) => Err(e),
            },
    )
}

/// The events that a stream takes lie inside the feed, and none before the
/// last of them is a failed poll.
pub proof fn lemma_taken_bounds<E>(feed: Seq<Polled<E>>)
    ensures
        taken(feed) <= feed.len(),
        forall|i: int| 0 <= i < taken(feed) - 1 ==> !(feed[i] is Failed),
        !fails(feed) ==> taken(feed) == feed.len(),
    decreases feed.len(),
{
    if feed.len() > 0 && !(feed[0] is Failed) {
        let rest = feed.drop_first();
        lemma_taken_bounds(rest);
        assert forall|i: int| 0 <= i < taken(feed) - 1 implies !(feed[i] is Failed) by {
            if i > 0 {
                assert(feed[i] == rest[i - 1]);
            }
        }
    }
}

/// Control events at the front of a feed change nothing but the count of
/// what is taken.
proof fn lemma_skip_controls<E>(feed: Seq<Polled<E>>, k: int)
    requires
        0 <= k <= feed.len(),
        forall|i: int| 0 <= i < k ==> feed[i] is Control,
    ensures
        emitted(feed) == emitted(feed.skip(k)),
        taken(feed) == k + taken(feed.skip(k)),
        fails(feed) == fails(feed.skip(k)),
    decreases k,
{
    if k == 0 {
        assert(feed.skip(0) == feed);
    } else {
        let rest = feed.drop_first();
        assert(forall|i: int| 0 <= i < k - 1 ==> rest[i] is Control);
        lemma_skip_controls(rest, k - 1);
        assert(rest.skip(k - 1) == feed.skip(k));
        lemma_taken_bounds(feed.skip(k));
    }
}

/// The stream is the poll-retry loop run again and again. With a budget
/// above zero, what a stream emits over a feed is decided by the first run
/// of the loop: a payload is emitted and followed by what the stream emits
/// over the rest of the feed, a timeout only moves the stream on to the rest
/// of the feed, a failure is emitted and nothing follows it, and a run that
/// waits emits nothing.
pub proof fn law_stream_over_attempts<E>(feed: Seq<Polled<E>>, budget: nat)
    requires
        budget > 0,
    ensures
        polls_made(feed, budget) <= feed.len(),
        match attempt(feed, budget) {
            Attempt::Payload(payload) => {
                &&& polls_made(feed, budget) > 0
                &&& emitted(feed) == seq![Ok::<Seq<u8>, E>(payload)] + emitted(
                    feed.skip(polls_made(feed, budget) as int),
                )
                &&& taken(feed) == polls_made(feed, budget) + taken(
                    feed.skip(polls_made(feed, budget) as int),
                )
                &&& fails(feed) == fails(feed.skip(polls_made(feed, budget) as int))
            },
            Attempt::TimedOut => {
                &&& polls_made(feed, budget) > 0
                &&& emitted(feed) == emitted(feed.skip(polls_made(feed, budget) as int))
                &&& taken(feed) == polls_made(feed, budget) + taken(
                    feed.skip(polls_made(feed, budget) as int),
                )
                &&& fails(feed) == fails(feed.skip(polls_made(feed, budget) as int))
            },
            Attempt::Failed(e) => {
                &&& emitted(feed) == seq![Err::<Seq<u8>, E>(e)]
                &&& taken(feed) == polls_made(feed, budget)
                &&& fails(feed)
            },
            Attempt::Pending => {
                &&& emitted(feed) == Seq::<Result<Seq<u8>, E>>::empty()
                &&& taken(feed) == feed.len()
                &&& polls_made(feed, budget) == feed.len()
                &&& !fails(feed)
            },
        },
{
    lemma_leading_controls_bounds(feed);
    let k = leading_controls(feed) as int;
    if k >= budget {
        lemma_skip_controls(feed, budget as int);
    } else {
        lemma_skip_controls(feed, k);
        if k < feed.len() {
            assert(feed.skip(k).drop_first() == feed.skip(k + 1));
            lemma_taken_bounds(feed.skip(k));
        }
    }
}

/// An error is always the last item of a stream, and a stream has ended
/// exactly when its last item is an error: it ends at most once, right
/// after it has emitted the error of a failed poll.
pub proof fn law_error_is_final<E>(feed: Seq<Polled<E>>)
    ensures
        forall|i: int|
            0 <= i < emitted(feed).len() && emitted(feed)[i] is Err ==> i == emitted(feed).len()
                - 1,
        fails(feed) <==> emitted(feed).len() > 0 && emitted(feed).last() is Err,
        fails(feed) ==> emitted(feed).last() == Err::<Seq<u8>, E>(feed[taken(feed) - 1]->Failed_0),
    decreases feed.len(),
{
    if feed.len() > 0 && !(feed[0] is Failed) {
        let rest = feed.drop_first();
        law_error_is_final(rest);
        lemma_taken_bounds(rest);
        if feed[0] is Publish {
            assert(forall|i: int|
                0 <= i < emitted(feed).len() && emitted(feed)[i] is Err ==> i == emitted(feed).len()
                    - 1);
        }
    }
}

/// A stream is lazy and keeps what it has emitted: more events at the end of
/// the feed only add items after those already emitted, and add none once a
/// poll has failed.
pub proof fn law_emitted_extends<E>(feed: Seq<Polled<E>>, more: Seq<Polled<E>>)
    ensures
        fails(feed) ==> emitted(feed + more) == emitted(feed),
        !fails(feed) ==> emitted(feed + more) == emitted(feed) + emitted(more),
    decreases feed.len(),
{
    if feed.len() > 0 {
        let rest = feed.drop_first();
        assert((feed + more).drop_first() == rest + more);
        if !(feed[0] is Failed) {
            law_emitted_extends(rest, more);
            lemma_taken_bounds(rest);
        }
    }
}

/// The state of a stream between pulls: the retry budget of each run of the
/// poll-retry loop, and whether the stream has ended.
#[derive(Debug, PartialEq, Eq)]
pub struct StreamAdapter {
    retries: usize,
    ended: bool,
}

impl StreamAdapter {
    /// The retry budget that each run of the poll-retry loop gets.
    pub closed spec fn budget(self) -> nat {
        self.retries as nat
    }

    /// Whether the stream has emitted its last item.
    pub closed spec fn ended(self) -> bool {
        self.ended
    }

    /// A stream that has emitted nothing yet.
    pub fn new(retries: usize) -> (stream: Self)
        ensures
            stream.budget() == retries,
            !stream.ended(),
    {
        StreamAdapter { retries, ended: false }
    }

    /// The retry budget that each run of the poll-retry loop gets.
    pub fn retries(&self) -> (retries: usize)
        ensures
            retries == self.budget(),
    {
        self.retries
    }

    /// Whether the stream has ended. A pull on a stream that has ended gives
    /// no item and polls nothing.
    pub fn is_ended(&self) -> (ended: bool)
        ensures
            ended == self.ended(),
    {
        self.ended
    }

    /// Takes the result of one run of the poll-retry loop and decides what
    /// the pull does with it.
    ///
    /// A payload is the item to emit. A timeout gives `None`: the pull runs
    /// the loop again. The failure of a poll is the item to emit, and the
    /// stream has ended with it. A stream that has ended stays so and gives
    /// `None`.
    pub fn on_attempt<E>(&mut self, result: Result<Vec<u8>, PollError<E>>) -> (item: Option<
        Result<Vec<u8>, E>,
    >)
        ensures
            final(self).budget() == old(self).budget(),
            old(self).ended() ==> item is None && final(self).ended(),
            !old(self).ended() ==> match result {
                Ok(payload) => item == Some(Ok::<Vec<u8>, E>(payload)) && !final(self).ended(),
                Err(PollError::TimedOut) => item is None && !final(self).ended(),
                Err(PollError::Transport(e)) => {
                    item == Some(Err::<Vec<u8>, E>(e)) && final(self).ended()
                },
            },
    {
        if self.ended {
            return None;
        }
        match result {
            Ok(payload) => Some(Ok(payload)),
            Err(PollError::TimedOut) => None,
            Err(PollError::Transport(e)) => {
                self.ended = true;
                Some(Err(e))
            },
        }
    }

    /// Pulls a recorded feed dry: runs the stream over `feed`, taking the
    /// events it polls from the front, and returns the items it emits.
    ///
    /// A stream that has ended, or whose retry budget is zero, emits nothing
    /// and takes nothing. Any other stream emits the payload of every publish
    /// up to the first failed poll, in the order of the feed, then the error
    /// of that poll, and has ended if there was one; it takes the feed up to
    /// and including that poll.
    pub fn drain<E>(&mut self, feed: &mut VecDeque<Result<Event, E>>) -> (items: Vec<
        Result<Vec<u8>, E>,
    >)
        ensures
            final(self).budget() == old(self).budget(),
            old(self).ended() || old(self).budget() == 0 ==> {
                &&& items@.len() == 0
                &&& final(feed)@ == old(feed)@
                &&& final(self).ended() == old(self).ended()
            },
            !old(self).ended() && old(self).budget() > 0 ==> {
                &&& payloads_of(items@) == emitted(feed_of(old(feed)@))
                &&& final(feed)@ == old(feed)@.skip(taken(feed_of(old(feed)@)) as int)
                &&& final(self).ended() == fails(feed_of(old(feed)@))
            },
    {
        let mut items: Vec<Result<Vec<u8>, E>> = Vec::new();
        if self.ended || self.retries == 0 {
            return items;
        }
        let ghost whole = feed@;
        let ghost all = feed_of(whole);
        let ghost mut at: int = 0;
        proof {
            assert(all.skip(0) == all);
        }
        loop
            invariant
                whole == old(feed)@,
                all == feed_of(whole),
                self.budget() == old(self).budget(),
                self.budget() > 0,
                !old(self).ended(),
                !self.ended(),
                0 <= at <= whole.len(),
                feed@ == whole.skip(at),
                emitted(all) == payloads_of(items@) + emitted(all.skip(at)),
                taken(all) == at + taken(all.skip(at)),
                fails(all) == fails(all.skip(at)),
            decreases feed@.len(),
        {
            let ghost rest = all.skip(at);
            let ghost n = polls_made(rest, self.budget()) as int;
            let ghost before = items@;
            proof {
                assert(feed_of(feed@) == rest);
                law_stream_over_attempts(rest, self.budget());
                assert(all.skip(at).skip(n) == all.skip(at + n));
            }
            match EventSource::get_payload(feed, self.retries) {
                None => {
                    return items;
                },
                Some(result) => {
                    match self.on_attempt(result) {
                        None => {},
                        Some(item) => {
                            items.push(item);
                            proof {
                                assert(payloads_of(items@) == payloads_of(before) + payloads_of(
                                    seq![item],
                                ));
                            }
                            if self.ended {
                                return items;
                            }
                        },
                    }
                    proof {
                        at = at + n;
                    }
                },
            }
        }
    }
}

impl EventSource {
    /// Turns the session into a stream: gives up the command handle and hands
    /// over the poll handle together with the state of a stream that has
    /// emitted nothing yet and gives each run of the poll-retry loop
    /// `retries` polls.
    pub fn into_stream(self, retries: usize) -> (parts: (EventLoop, StreamAdapter))
        ensures
            parts.0 == self.el,
            parts.1.budget() == retries,
            !parts.1.ended(),
    {
        (self.el, StreamAdapter::new(retries))
    }
}

} // verus!
