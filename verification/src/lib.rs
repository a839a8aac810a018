//! A fixed-window ("jumping window") rate limiter.
//!
//! Time is passed explicitly to every operation as a monotonic timestamp in
//! nanoseconds, and durations are nanosecond counts, so the whole admission
//! logic is a function of plain values.  The building blocks are:
//!
//! * [`jumping_window::JumpingWindow`]: a single fixed-window counter;
//! * [`table::WindowTable`]: a map from key hashes to counters, with an
//!   eviction sweep for stale entries;
//! * [`fixed_mapping::FixedMapping`]: a keyed limiter whose capacity and
//!   period are fixed at construction;
//! * [`dynamic_mapping::DynamicMapping`]: a keyed limiter whose capacity and
//!   period are supplied per call, with a retention bound fixed at
//!   construction.

pub mod dynamic_mapping;
pub mod fixed_mapping;
pub mod jumping_window;
pub mod table;
pub mod traits;

use vstd::prelude::*;

verus! {

/// A configuration rejected at construction: a limiter with no capacity could
/// never admit, and a window of zero length is meaningless.
#[derive(Clone, Copy, Debug, PartialEq, Eq, Structural)]
pub enum ConfigError {
    ZeroCapacity,
    ZeroPeriod,
}

} // verus!
