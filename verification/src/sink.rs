//! The sink consumer: drains the decoded sequence into a line-oriented
//! output.
//!
//! The items are taken in order. Each text is written as one line. The first
//! error stops the consumer and is handed back to the caller; nothing is
//! written after it.

use crate::decode::{decoded, decoded_items, texts_of};
use crate::event::Polled;
use crate::stream::{emitted, fails, law_error_is_final, taken};
use vstd::prelude::*;

verus! {

/// Number of texts at the front of `items`, before the first error.
pub open spec fn leading_texts<E>(items: Seq<Result<Seq<char>, E>>) -> nat
    decreases items.len(),
{
    if items.len() > 0 && items[0] is Ok {
        1 + leading_texts(items.drop_first())
    } else {
        0
    }
}

/// The lines that a consumer of `items` writes: the texts that come before
/// the first error, in their order.
pub open spec fn written<E>(items: Seq<Result<Seq<char>, E>>) -> Seq<Seq<char>> {
    Seq::new(leading_texts(items), |i: int| items[i]->Ok_0)
}

/// The error that a consumer of `items` hands back: the first one, if there
/// is any.
pub open spec fn surfaced<E>(items: Seq<Result<Seq<char>, E>>) -> Option<E> {
    if leading_texts(items) < items.len() {
        Some(items[leading_texts(items) as int]->Err_0)
    } else {
        None
    }
}

/// The mathematical value of a sequence of lines.
pub open spec fn lines_of(lines: Seq<String>) -> Seq<Seq<char>> {
    lines.map_values(|line: String| line@)
}

/// The texts counted by `leading_texts` lie inside the sequence and are all
/// texts, and the item after them, if any, is an error.
pub proof fn lemma_leading_texts_bounds<E>(items: Seq<Result<Seq<char>, E>>)
    ensures
        leading_texts(items) <= items.len(),
        forall|i: int| 0 <= i < leading_texts(items) ==> items[i] is Ok,
        leading_texts(items) < items.len() ==> items[leading_texts(items) as int] is Err,
    decreases items.len(),
{
    if items.len() > 0 && items[0] is Ok {
        let rest = items.drop_first();
        lemma_leading_texts_bounds(rest);
        let k = leading_texts(items);
        assert forall|i: int| 0 <= i < k implies items[i] is Ok by {
            if i > 0 {
                assert(items[i] == rest[i - 1]);
            }
        }
    }
}

/// `leading_texts` is the one index that has only texts before it and no
/// text at it.
pub proof fn lemma_leading_texts<E>(items: Seq<Result<Seq<char>, E>>, k: int)
    requires
        0 <= k <= items.len(),
        forall|i: int| 0 <= i < k ==> items[i] is Ok,
        k < items.len() ==> items[k] is Err,
    ensures
        leading_texts(items) == k,
    decreases items.len(),
{
    if k > 0 {
        let rest = items.drop_first();
        assert(forall|i: int| 0 <= i < k - 1 ==> rest[i] is Ok);
        lemma_leading_texts(rest, k - 1);
    }
}

/// One line is written per item taken, in the order of the items, and the
/// consumer stops at the first error: an error at position `k` with only
/// texts before it is the one handed back, after exactly those `k` texts
/// have been written. Without an error every text is written and nothing is
/// handed back.
pub proof fn law_sink_stops_at_first_error<E>(items: Seq<Result<Seq<char>, E>>)
    ensures
        written(items).len() <= items.len(),
        forall|i: int| 0 <= i < written(items).len() ==> items[i] == Ok::<Seq<char>, E>(
            written(items)[i],
        ),
        match surfaced(items) {
            Some(e) => written(items).len() < items.len() && items[written(items).len() as int]
                == Err::<Seq<char>, E>(e),
            None => written(items).len() == items.len(),
        },
{
    lemma_leading_texts_bounds(items);
}

/// From the feed to the lines: a consumer of the decoded stream writes the
/// decoded payload of every publish that comes before the first failed poll,
/// in the order of arrival, and hands back the error of that poll unchanged.
/// Where no poll fails it hands nothing back.
pub proof fn law_sink_over_stream<E>(feed: Seq<Polled<E>>)
    ensures
        written(decoded_items(emitted(feed))).len() + (if fails(feed) {
            1int
        } else {
            0int
        }) == emitted(feed).len(),
        forall|i: int|
            0 <= i < written(decoded_items(emitted(feed))).len() ==> emitted(feed)[i] is Ok
                && written(decoded_items(emitted(feed)))[i] == decoded(emitted(feed)[i]->Ok_0),
        surfaced(decoded_items(emitted(feed))) == if fails(feed) {
            Some(feed[taken(feed) - 1]->Failed_0)
        } else {
            None
        },
{
    law_error_is_final(feed);
    let items = decoded_items(emitted(feed));
    let k = emitted(feed).len() - if fails(feed) {
        1int
    } else {
        0int
    };
    assert(forall|i: int| 0 <= i < k ==> items[i] is Ok);
    lemma_leading_texts(items, k);
}

/// Writes each string as one line into `out`, in order, and stops at the
/// first error, which it returns. Nothing is written after an error, and
/// what `out` held before stays in front.
pub fn print_strings<E>(strings: Vec<Result<String, E>>, out: &mut Vec<String>) -> (result: Result<
    (),
    E,
>)
    ensures
        lines_of(final(out)@) == lines_of(old(out)@) + written(texts_of(strings@)),
        match surfaced(texts_of(strings@)) {
            Some(e) => result == Err::<(), E>(e),
            None => result is Ok,
        },
{
    let ghost items = texts_of(strings@);
    let ghost start = out@;
    for item in it: strings
        invariant
            it.seq() == strings@,
            items == texts_of(strings@),
            start == old(out)@,
            out@.len() == start.len() + it.index(),
            forall|i: int| 0 <= i < start.len() ==> out@[i] == start[i],
            forall|i: int|
                0 <= i < it.index() ==> items[i] == Ok::<Seq<char>, E>(out@[start.len() + i]@),
    {
        let ghost at = it.index() as int;
        match item {
            Ok(line) => {
                out.push(line);
            },
            Err(e) => {
                proof {
                    lemma_leading_texts(items, at);
                }
                return Err(e);
            },
        }
    }
    proof {
        lemma_leading_texts(items, items.len() as int);
    }
    Ok(())
}

} // verus!
