use vstd::prelude::*;

verus! {

/// One offset-aware point in time: the instant as seconds since the Unix
/// epoch (UTC, the canonical zone every comparison uses), together with the
/// UTC offset, in seconds east, that the source text carried. The offset
/// plays no part in comparisons; formatting renders the instant in it.
#[derive(Clone, Copy, Debug, PartialEq, Eq, Structural)]
pub struct Instant {
    pub secs: i64,
    pub offset_secs: i32,
}

/// One void-time window `[start, end]`, both bounds inclusive.
/// `start <= end` is assumed at load, not enforced.
#[derive(Clone, Copy, Debug, PartialEq, Eq, Structural)]
pub struct Interval {
    pub start: Instant,
    pub end: Instant,
}

/// The ordered sequence of intervals, in file order; built once and never
/// mutated afterwards. Ascending order by `end` is assumed, not enforced.
pub struct IntervalStore {
    intervals: Vec<Interval>,
}

impl View for IntervalStore {
    type V = Seq<Interval>;

    closed spec fn view(&self) -> Seq<Interval> {
        self.intervals@
    }
}

impl IntervalStore {
    pub fn new(intervals: Vec<Interval>) -> (r: IntervalStore)
        ensures
            r@ == intervals@,
    {
        IntervalStore { intervals }
    }

    pub fn len(&self) -> (r: usize)
        ensures
            r == self@.len(),
    {
        self.intervals.len()
    }

    pub fn get(&self, i: usize) -> (r: Interval)
        requires
            i < self@.len(),
        ensures
            r == self@[i as int],
    {
        self.intervals[i]
    }
}

} // verus!
