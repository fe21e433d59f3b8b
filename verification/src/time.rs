use vstd::prelude::*;

verus! {

/// Number of nanoseconds in one second.
pub const NANOS_PER_SEC: u32 = 1_000_000_000;

/// An elapsed amount of time with total ordering: whole seconds plus a
/// sub-second remainder in nanoseconds.
#[derive(Clone, Copy, PartialEq, Eq, Structural, Debug)]
pub struct Duration {
    pub secs: u64,
    pub nanos: u32,
}

impl Duration {
    /// The nanosecond part is a proper sub-second remainder.
    pub open spec fn wf(&self) -> bool {
        self.nanos < NANOS_PER_SEC
    }

    /// The whole duration, in nanoseconds.
    pub open spec fn total_nanos(&self) -> int {
        self.secs as int * NANOS_PER_SEC as int + self.nanos as int
    }

    pub fn new(secs: u64, nanos: u32) -> (r: Duration)
        requires
            nanos < NANOS_PER_SEC,
        ensures
            r.wf(),
            r.secs == secs,
            r.nanos == nanos,
    {
        Duration { secs, nanos }
    }

    pub fn from_secs(secs: u64) -> (r: Duration)
        ensures
            r.wf(),
            r.total_nanos() == secs as int * NANOS_PER_SEC as int,
    {
        Duration { secs, nanos: 0 }
    }

    /// Strict comparison: true exactly when `self` is longer than `other`.
    pub fn exceeds(&self, other: &Duration) -> (r: bool)
        requires
            self.wf(),
            other.wf(),
        ensures
            r == (self.total_nanos() > other.total_nanos()),
    {
        self.secs > other.secs || (self.secs == other.secs && self.nanos > other.nanos)
    }
}

/// A point in time, counted from a fixed origin: whole seconds plus a
/// sub-second remainder in nanoseconds.
#[derive(Clone, Copy, PartialEq, Eq, Structural, Debug)]
pub struct Timestamp {
    pub secs: u64,
    pub nanos: u32,
}

impl Timestamp {
    /// The nanosecond part is a proper sub-second remainder.
    pub open spec fn wf(&self) -> bool {
        self.nanos < NANOS_PER_SEC
    }

    /// The whole timestamp, in nanoseconds from the origin.
    pub open spec fn total_nanos(&self) -> int {
        self.secs as int * NANOS_PER_SEC as int + self.nanos as int
    }

    pub fn new(secs: u64, nanos: u32) -> (r: Timestamp)
        requires
            nanos < NANOS_PER_SEC,
        ensures
            r.wf(),
            r.secs == secs,
            r.nanos == nanos,
    {
        Timestamp { secs, nanos }
    }

    pub fn from_secs(secs: u64) -> (r: Timestamp)
        ensures
            r.wf(),
            r.total_nanos() == secs as int * NANOS_PER_SEC as int,
    {
        Timestamp { secs, nanos: 0 }
    }

    /// The time elapsed from `earlier` to `self`, or `None` when `earlier`
    /// is in fact later: a negative elapsed time has no representation.
    pub fn duration_since(&self, earlier: &Timestamp) -> (r: Option<Duration>)
        requires
            self.wf(),
            earlier.wf(),
        ensures
            r is Some <==> self.total_nanos() >= earlier.total_nanos(),
            r matches Some(d) ==> d.wf() && d.total_nanos() == self.total_nanos()
                - earlier.total_nanos(),
    {
        if self.secs > earlier.secs || (self.secs == earlier.secs && self.nanos >= earlier.nanos) {
            if self.nanos >= earlier.nanos {
                Some(Duration { secs: self.secs - earlier.secs, nanos: self.nanos - earlier.nanos })
            } else {
                Some(
                    Duration {
                        secs: self.secs - earlier.secs - 1,
                        nanos: (NANOS_PER_SEC - earlier.nanos) + self.nanos,
                    },
                )
            }
        } else {
            None
        }
    }
}

} // verus!
