//! Requests and responses for many-to-many travel-time tables.

use vstd::prelude::*;
use crate::point::Point;

verus! {

/// A many-to-many matrix request.  Both collections must be non-empty;
/// the facade rejects an empty one before any boundary call.
#[derive(Clone, Debug)]
pub struct TableRequest {
    pub sources: Vec<Point>,
    pub destinations: Vec<Point>,
}

/// Per-location metadata mirrored from the native payload.  `location` is
/// `[longitude, latitude]` in micro-degrees, `distance` in thousandths of
/// a meter.
#[derive(Clone, Debug)]
pub struct TableLocationEntry {
    pub hint: String,
    pub location: [i64; 2],
    pub name: String,
    pub distance: i64,
}

/// The parsed table payload.  `durations` is indexed `[source][destination]`
/// in milliseconds; a `None` entry means the engine found no path between
/// that pair, which is not an error.
#[derive(Clone, Debug)]
pub struct TableResponse {
    pub code: String,
    pub destinations: Vec<TableLocationEntry>,
    pub durations: Vec<Vec<Option<i64>>>,
    pub sources: Vec<TableLocationEntry>,
}

} // verus!
