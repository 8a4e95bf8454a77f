//! A non-negative length of time, held as plain integer values so that
//! contracts can speak about it directly.

use vstd::prelude::*;

verus! {

/// Number of nanoseconds in one second.
pub const NANOS_PER_SEC: u32 = 1_000_000_000;

/// A non-negative length of time: `secs` whole seconds plus a remainder of
/// `nanos` nanoseconds.
#[derive(Clone, Copy, Debug, PartialEq, Eq, Structural)]
pub struct AudioDuration {
    pub secs: u64,
    pub nanos: u32,
}

impl AudioDuration {
    /// A duration is well formed when the nanosecond part is a true
    /// remainder, strictly below one second.
    pub open spec fn wf(&self) -> bool {
        self.nanos < NANOS_PER_SEC
    }

    /// Total length in nanoseconds.
    pub open spec fn as_nanos(&self) -> int {
        self.secs * (NANOS_PER_SEC as int) + self.nanos
    }

    /// Builds a duration from whole seconds and a nanosecond remainder.
    pub fn new(secs: u64, nanos: u32) -> (r: AudioDuration)
        requires
            nanos < NANOS_PER_SEC,
        ensures
            r.secs == secs,
            r.nanos == nanos,
            r.wf(),
    {
        AudioDuration { secs, nanos }
    }

    /// The zero-length duration.
    pub fn zero() -> (r: AudioDuration)
        ensures
            r.secs == 0,
            r.nanos == 0,
            r.wf(),
    {
        AudioDuration { secs: 0, nanos: 0 }
    }
}

} // verus!
