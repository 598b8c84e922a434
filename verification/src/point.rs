//! Geographic coordinates as fixed-point integers.
//!
//! The native engine exchanges coordinates as double-precision degrees.
//! Inside this crate a coordinate is an `i64` count of micro-degrees
//! (degrees times [`MICRODEGREES_PER_DEGREE`]), so that every statement
//! about marshaling is exact.  Durations, distances and weights follow the
//! same pattern with [`THOUSANDTHS_PER_UNIT`]: an `i64` count of
//! thousandths of the native unit (seconds, meters, or the configured
//! weight).  The unverified shell converts to and from floats at the
//! foreign-call boundary.

use vstd::prelude::*;

verus! {

/// Micro-degrees per degree: the fixed-point scale for latitudes and
/// longitudes.
pub const MICRODEGREES_PER_DEGREE: i64 = 1_000_000;

/// Thousandths per unit: the fixed-point scale for durations (seconds),
/// distances (meters) and weights.
pub const THOUSANDTHS_PER_UNIT: i64 = 1_000;

/// A geographic coordinate.  Both fields are micro-degrees.  This layer
/// enforces no validity range; out-of-range positions are the native
/// engine's to reject.
#[derive(Clone, Copy, Debug, PartialEq, Eq, Structural)]
pub struct Point {
    pub latitude: i64,
    pub longitude: i64,
}

} // verus!
