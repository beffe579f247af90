use vstd::prelude::*;

verus! {

/// An instant in time, as a count of whole seconds since the Unix epoch
/// together with the nanoseconds within that second.
///
/// This is the in-memory shape of the store's timestamp-with-timezone
/// column and of the wire encoding, which both carry (seconds, nanoseconds)
/// pairs. A well-formed value keeps the nanoseconds below one billion.
#[derive(Clone, Copy, Debug, Hash, PartialEq, Eq, Structural)]
pub struct Timestamp {
    pub seconds: i64,
    pub nanos: u32,
}

impl Timestamp {
    /// The nanosecond part names a fraction of one second.
    pub open spec fn wf(self) -> bool {
        self.nanos < 1_000_000_000
    }

    /// `self` is no later than `other`.
    pub open spec fn le(self, other: Timestamp) -> bool {
        ||| self.seconds < other.seconds
        ||| (self.seconds == other.seconds && self.nanos <= other.nanos)
    }

    /// Decides whether `self` is no later than `other`.
    pub fn before_eq(&self, other: &Timestamp) -> (r: bool)
        ensures
            r == self.le(*other),
    {
        self.seconds < other.seconds || (self.seconds == other.seconds && self.nanos <= other.nanos)
    }
}

} // verus!
