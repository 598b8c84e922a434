//! Requests and responses for point-to-point routing.

use vstd::prelude::*;
use crate::point::Point;
use crate::waypoints::Waypoint;

verus! {

/// An ordered list of points to route through.  Must be non-empty; a list
/// of fewer than two points is the native side's to reject.
#[derive(Clone, Debug)]
pub struct RouteRequest {
    pub points: Vec<Point>,
}

/// A summary of the common one-source one-destination case, derived from a
/// full [`RouteResponse`]: the first leg's distance (thousandths of a
/// meter) and duration (milliseconds) of the first returned route.
#[derive(Clone, Debug)]
pub struct SimpleRouteResponse {
    pub code: String,
    pub durations: i64,
    pub distance: i64,
}

/// The parsed route payload.
#[derive(Clone, Debug)]
pub struct RouteResponse {
    pub code: String,
    pub routes: Vec<Route>,
    pub waypoints: Vec<Waypoint>,
}

/// The same shape as [`RouteResponse`], for callers that pass a whole
/// native payload through unchanged.
#[derive(Clone, Debug)]
pub struct OsrmResponse {
    pub code: String,
    pub routes: Vec<Route>,
    pub waypoints: Vec<Waypoint>,
}

/// One route through all requested points.  `geometry` is an encoded
/// polyline, opaque to this layer; `weight` is in thousandths of the unit
/// named by `weight_name`, `duration` in milliseconds.
#[derive(Clone, Debug)]
pub struct Route {
    pub legs: Vec<Leg>,
    pub weight_name: String,
    pub geometry: String,
    pub weight: i64,
    pub duration: i64,
}

/// One source-to-destination segment of a route.  `duration` is in
/// milliseconds, `distance` in thousandths of a meter.
#[derive(Clone, Debug)]
pub struct Leg {
    pub steps: Vec<Step>,
    pub weight: i64,
    pub summary: String,
    pub duration: i64,
    pub distance: i64,
}

/// A turn-by-turn step.  The native schema's step fields are not mapped
/// yet, mirroring the inherited payload contract.
#[derive(Clone, Debug)]
pub struct Step {
}

} // verus!
