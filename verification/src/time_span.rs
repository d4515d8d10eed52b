use vstd::prelude::*;

verus! {

/// A length of time held as whole milliseconds.
#[derive(Clone, Copy, Debug, PartialEq, Eq, Structural)]
pub struct TimeSpan {
    pub millis: u64,
}

impl TimeSpan {
    /// A span of `secs` whole seconds.
    pub fn from_secs(secs: u64) -> (r: TimeSpan)
        requires
            secs * 1000 <= u64::MAX,
        ensures
            r.millis == secs * 1000,
    {
        TimeSpan { millis: secs * 1000 }
    }

    /// A span of `millis` milliseconds.
    pub fn from_millis(millis: u64) -> (r: TimeSpan)
        ensures
            r.millis == millis,
    {
        TimeSpan { millis }
    }

    /// The number of whole seconds in the span.
    pub fn as_secs(&self) -> (r: u64)
        ensures
            r == self.millis / 1000,
    {
        self.millis / 1000
    }

    /// The number of milliseconds in the span.
    pub fn as_millis(&self) -> (r: u64)
        ensures
            r == self.millis,
    {
        self.millis
    }
}

} // verus!
