//! Snapped-location metadata returned with route responses.

use vstd::prelude::*;

verus! {

/// Where the engine snapped one input point onto the road network.
/// `location` is `[longitude, latitude]` in micro-degrees, `distance` the
/// snapping distance in thousandths of a meter; `hint` is an opaque token
/// of the native engine.
#[derive(Clone, Debug)]
pub struct Waypoint {
    pub hint: String,
    pub location: [i64; 2],
    pub name: String,
    pub distance: i64,
}

} // verus!
