use vstd::prelude::*;

use crate::errors::VoidTimeError;
use crate::store::{Interval, IntervalStore};
use crate::trusted::{format_instant, formatted_instant};

verus! {

/// Whether the instant `t` lies in the window, both bounds inclusive,
/// compared in the canonical zone.
pub open spec fn spec_in_interval(iv: Interval, t: i64) -> bool {
    iv.start.secs <= t <= iv.end.secs
}

/// The position of the first interval whose `end` is at or after `t`;
/// `None` when `t` is after every interval's `end`.
pub open spec fn spec_first_index(s: Seq<Interval>, t: i64) -> Option<int>
    decreases s.len(),
{
    if s.len() == 0 {
        None
    } else if t <= s[0].end.secs {
        Some(0)
    } else {
        match spec_first_index(s.drop_first(), t) {
            Some(i) => Some(i + 1),
            None => None,
        }
    }
}

/// The index the lookup answers: the first interval whose `end` is at or
/// after `t`, or the deliberate fallback 0 when no interval qualifies.
pub open spec fn spec_index_for_instant(s: Seq<Interval>, t: i64) -> int {
    match spec_first_index(s, t) {
        Some(i) => i,
        None => 0,
    }
}

/// Ascending order by `end`, the order the store is assumed to be in.
pub open spec fn sorted_by_end(s: Seq<Interval>) -> bool {
    forall|i: int, j: int| 0 <= i <= j < s.len() ==> s[i].end.secs <= s[j].end.secs
}

/// What `spec_first_index` finds: a matched position is in range, matches,
/// and is preceded only by intervals that end before `t`; no position comes
/// back exactly when every interval ends before `t`.
pub proof fn lemma_first_index_characterization(s: Seq<Interval>, t: i64)
    ensures
        match spec_first_index(s, t) {
            Some(i) => 0 <= i < s.len() && t <= s[i].end.secs && (forall|j: int|
                0 <= j < i ==> t > s[j].end.secs),
            None => forall|j: int| 0 <= j < s.len() ==> t > s[j].end.secs,
        },
    decreases s.len(),
{
    if s.len() == 0 {
    } else if t <= s[0].end.secs {
    } else {
        lemma_first_index_characterization(s.drop_first(), t);
        match spec_first_index(s.drop_first(), t) {
            Some(i) => {
                assert forall|j: int| 0 <= j < i + 1 implies t > s[j].end.secs by {
                    if j > 0 {
                        assert(s.drop_first()[j - 1] == s[j]);
                    }
                }
            },
            None => {
                assert forall|j: int| 0 <= j < s.len() implies t > s[j].end.secs by {
                    if j > 0 {
                        assert(s.drop_first()[j - 1] == s[j]);
                    }
                }
            },
        }
    }
}

/// The converse: a position that matches and whose predecessors all end
/// before `t` is the position `spec_first_index` finds.
pub proof fn lemma_first_index_unique(s: Seq<Interval>, t: i64, i: int)
    requires
        0 <= i < s.len(),
        t <= s[i].end.secs,
        forall|j: int| 0 <= j < i ==> t > s[j].end.secs,
    ensures
        spec_first_index(s, t) == Some(i),
    decreases i,
{
    if i == 0 {
    } else {
        assert(t > s[0].end.secs);
        assert(s.drop_first()[i - 1] == s[i]);
        assert forall|j: int| 0 <= j < i - 1 implies t > s.drop_first()[j].end.secs by {
            assert(s.drop_first()[j] == s[j + 1]);
        }
        lemma_first_index_unique(s.drop_first(), t, i - 1);
    }
}

/// When every interval ends before `t`, nothing is found.
pub proof fn lemma_first_index_none(s: Seq<Interval>, t: i64)
    requires
        forall|j: int| 0 <= j < s.len() ==> t > s[j].end.secs,
    ensures
        spec_first_index(s, t) is None,
{
    lemma_first_index_characterization(s, t);
    if spec_first_index(s, t) is Some {
        let i = spec_first_index(s, t)->Some_0;
        assert(t > s[i].end.secs);
    }
}

/// For a store sorted ascending by `end`, the looked-up index is
/// monotonically non-decreasing as the queried instant increases, as long as
/// the larger instant is still at or before some interval's `end` (an
/// instant past every `end` falls back to index 0 instead).
pub proof fn lemma_index_monotonic(s: Seq<Interval>, t1: i64, t2: i64)
    requires
        sorted_by_end(s),
        t1 <= t2,
        exists|k: int| 0 <= k < s.len() && t2 <= s[k].end.secs,
    ensures
        spec_index_for_instant(s, t1) <= spec_index_for_instant(s, t2),
{
    lemma_first_index_characterization(s, t1);
    lemma_first_index_characterization(s, t2);
    let k = choose|k: int| 0 <= k < s.len() && t2 <= s[k].end.secs;
    assert(spec_first_index(s, t2) is Some);
    let i2 = spec_first_index(s, t2)->Some_0;
    assert(t1 <= s[i2].end.secs);
    assert(spec_first_index(s, t1) is Some);
    let i1 = spec_first_index(s, t1)->Some_0;
    if i1 > i2 {
        assert(t1 > s[i2].end.secs);
    }
}

/// For a store sorted ascending by `end`, an instant beyond the last
/// interval's `end` maps to the documented fallback index 0.
pub proof fn lemma_index_fallback(s: Seq<Interval>, t: i64)
    requires
        sorted_by_end(s),
        s.len() > 0,
        s[s.len() - 1].end.secs < t,
    ensures
        spec_index_for_instant(s, t) == 0,
{
    assert forall|j: int| 0 <= j < s.len() implies t > s[j].end.secs by {
        assert(s[j].end.secs <= s[s.len() - 1].end.secs);
    }
    lemma_first_index_none(s, t);
}

/// Both bounds of a well-formed interval lie within it: the bounds of the
/// membership test are inclusive on both sides.
pub proof fn lemma_bounds_within(s: Seq<Interval>, i: int)
    requires
        0 <= i < s.len(),
        s[i].start.secs <= s[i].end.secs,
    ensures
        spec_in_interval(s[i], s[i].start.secs),
        spec_in_interval(s[i], s[i].end.secs),
{
}

/// An instant strictly before `start` or strictly after `end` is never
/// within the interval.
pub proof fn lemma_outside_bounds_not_within(s: Seq<Interval>, i: int, t: i64)
    requires
        0 <= i < s.len(),
        t < s[i].start.secs || t > s[i].end.secs,
    ensures
        !spec_in_interval(s[i], t),
{
}

/// A single forward scan: the index of the first interval in store order
/// whose `end` is at or after `instant`, with the deliberate fallback 0 when
/// every interval ends before it.
pub fn index_for_instant(store: &IntervalStore, instant: i64) -> (r: usize)
    ensures
        r as int == spec_index_for_instant(store@, instant),
{
    let n = store.len();
    let mut i: usize = 0;
    while i < n
        invariant
            n == store@.len(),
            i <= n,
            forall|j: int| 0 <= j < i ==> instant > store@[j].end.secs,
        decreases n - i,
    {
        if instant <= store.get(i).end.secs {
            proof {
                lemma_first_index_unique(store@, instant, i as int);
            }
            return i;
        }
        i = i + 1;
    }
    proof {
        lemma_first_index_none(store@, instant);
    }
    0
}

/// The membership test: whether the instant lies in the chosen interval,
/// both bounds inclusive; rejects an index at or beyond the store's length.
pub fn is_within(store: &IntervalStore, index: usize, instant: i64) -> (r: Result<
    bool,
    VoidTimeError,
>)
    ensures
        index < store@.len() ==> r == Ok::<bool, VoidTimeError>(
            spec_in_interval(store@[index as int], instant),
        ),
        index >= store@.len() ==> r == Err::<bool, VoidTimeError>(VoidTimeError::IndexOutOfRange),
{
    if index >= store.len() {
        return Err(VoidTimeError::IndexOutOfRange);
    }
    let iv = store.get(index);
    Ok(iv.start.secs <= instant && instant <= iv.end.secs)
}

/// Renders the chosen interval's `start` under a strftime-style pattern, in
/// the offset the source text carried; rejects an out-of-range index, and
/// reports a pattern chrono cannot render as a parse failure.
pub fn format_start(store: &IntervalStore, index: usize, pattern: &str) -> (r: Result<
    String,
    VoidTimeError,
>)
    ensures
        index >= store@.len() ==> r == Err::<String, VoidTimeError>(VoidTimeError::IndexOutOfRange),
        index < store@.len() ==> match formatted_instant(
            store@[index as int].start.secs,
            store@[index as int].start.offset_secs,
            pattern@,
        ) {
            Some(t) => r matches Ok(s) && s@ == t,
            None => r == Err::<String, VoidTimeError>(VoidTimeError::ParseError),
        },
{
    if index >= store.len() {
        return Err(VoidTimeError::IndexOutOfRange);
    }
    let iv = store.get(index);
    match format_instant(iv.start.secs, iv.start.offset_secs, pattern) {
        Some(s) => Ok(s),
        None => Err(VoidTimeError::ParseError),
    }
}

/// As `format_start`, for the chosen interval's `end`.
pub fn format_end(store: &IntervalStore, index: usize, pattern: &str) -> (r: Result<
    String,
    VoidTimeError,
>)
    ensures
        index >= store@.len() ==> r == Err::<String, VoidTimeError>(VoidTimeError::IndexOutOfRange),
        index < store@.len() ==> match formatted_instant(
            store@[index as int].end.secs,
            store@[index as int].end.offset_secs,
            pattern@,
        ) {
            Some(t) => r matches Ok(s) && s@ == t,
            None => r == Err::<String, VoidTimeError>(VoidTimeError::ParseError),
        },
{
    if index >= store.len() {
        return Err(VoidTimeError::IndexOutOfRange);
    }
    let iv = store.get(index);
    match format_instant(iv.end.secs, iv.end.offset_secs, pattern) {
        Some(s) => Ok(s),
        None => Err(VoidTimeError::ParseError),
    }
}

} // verus!
