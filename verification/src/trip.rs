//! Requests and responses for multi-stop trip optimization.

use vstd::prelude::*;
use crate::point::Point;

verus! {

/// The stops of a traveling-salesman-style trip, to be visited in an
/// order the engine chooses.  Must be non-empty.
#[derive(Clone, Debug)]
pub struct TripRequest {
    pub points: Vec<Point>,
}

/// The parsed trip payload.  The field mapping from the native schema is
/// deliberately still empty: the payload is accepted and discarded until
/// the mapping is settled.
#[derive(Clone, Debug)]
pub struct TripResponse {
}

} // verus!
