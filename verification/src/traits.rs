//! Plain-value time intervals at the library boundary.
//!
//! An embedding hands intervals over in decomposed form (days, seconds,
//! microseconds); the limiters work in whole nanoseconds.

use vstd::prelude::*;

verus! {

/// A non-negative time interval in decomposed form.
pub struct Delta {
    pub days: u32,
    pub seconds: u32,
    pub microseconds: u32,
}

/// Conversion of an interval representation into whole nanoseconds.
pub trait ToDuration {
    /// The interval's exact length in nanoseconds.
    spec fn duration_nanos(&self) -> int;

    fn as_duration(&self) -> (nanos: u64)
        requires
            0 <= self.duration_nanos() <= u64::MAX,
        ensures
            nanos == self.duration_nanos(),
    ;
}

impl ToDuration for Delta {
    open spec fn duration_nanos(&self) -> int {
        (self.days * 86400 + self.seconds) * 1_000_000_000 + self.microseconds * 1000
    }

    fn as_duration(&self) -> (nanos: u64) {
        let days = self.days as u64;
        let seconds = self.seconds as u64;
        let micros = self.microseconds as u64;
        (days * 86400 + seconds) * 1_000_000_000 + micros * 1000
    }
}

/// Splits a nanosecond interval into whole seconds and the microseconds of
/// the fractional part, as an embedding that builds a decomposed delta needs
/// them.
pub fn duration_parts(nanos: u64) -> (parts: (u64, u32))
    ensures
        parts.0 == nanos / 1_000_000_000,
        parts.1 == (nanos % 1_000_000_000) / 1000,
{
    let seconds = nanos / 1_000_000_000;
    let micros = ((nanos % 1_000_000_000) / 1000) as u32;
    (seconds, micros)
}

} // verus!
