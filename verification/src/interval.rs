use vstd::prelude::*;

verus! {

/// A point in time, as a signed count of seconds on one common clock.
///
/// The library never interprets a timestamp beyond comparing it to other
/// timestamps, so the caller may pick any totally ordered encoding (seconds
/// since an epoch, for instance) as long as it uses the same one throughout.
pub type Timestamp = i64;

/// A half-open time interval: `from` is included, `to` is not.
#[derive(Debug, PartialEq, Eq, Clone, Copy)]
pub struct Interval {
    pub from: Timestamp,
    pub to: Timestamp,
}

impl Interval {
    /// A well-formed interval does not end before it starts.
    pub open spec fn wf(self) -> bool {
        self.from <= self.to
    }

    /// Membership in the half-open range: `from <= t < to`.
    pub open spec fn spec_includes(&self, t: Timestamp) -> bool {
        self.from <= t && t < self.to
    }

    pub fn new(from: Timestamp, to: Timestamp) -> (r: Self)
        requires
            from <= to,
        ensures
            r == (Interval { from, to }),
            r.wf(),
    {
        Interval { from, to }
    }

    /// Whether `t` lies inside the interval, i.e. `from <= t < to`.
    ///
    /// The lower bound is included and the upper bound is excluded, so
    /// `includes(from)` holds and `includes(to)` does not (for a non-empty
    /// interval).
    #[verifier::when_used_as_spec(spec_includes)]
    pub fn includes(&self, t: Timestamp) -> (r: bool)
        ensures
            r == self.spec_includes(t),
    {
        self.from <= t && t < self.to
    }
}

} // verus!
