use vstd::prelude::*;

verus! {

/// A span of distance keys from `start` to `end`.
#[derive(Clone, Copy, PartialEq, Eq, Structural, Debug)]
pub struct Interval {
    pub start: u64,
    pub end: u64,
}

impl Interval {
    /// The span from `start` to `end`.
    pub fn new(start: u64, end: u64) -> (r: Interval)
        ensures
            r.start == start,
            r.end == end,
    {
        Interval { start, end }
    }

    /// `item` lies in the span, ends included.
    pub open spec fn contains_spec(&self, item: u64) -> bool {
        self.start <= item && item <= self.end
    }

    /// `item` lies strictly inside the span, ends excluded.
    pub open spec fn surrounds_spec(&self, item: u64) -> bool {
        self.start < item && item < self.end
    }

    /// Whether `item` lies in the span, ends included.
    pub fn contains(&self, item: u64) -> (r: bool)
        ensures
            r == self.contains_spec(item),
    {
        self.start <= item && item <= self.end
    }

    /// Whether `item` lies strictly inside the span, ends excluded.
    pub fn surrounds(&self, item: u64) -> (r: bool)
        ensures
            r == self.surrounds_spec(item),
    {
        self.start < item && item < self.end
    }
}

} // verus!
