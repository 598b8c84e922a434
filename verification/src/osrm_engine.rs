//! The engine facade's decisions.
//!
//! The facade validates a typed request, flattens it into the native
//! calling convention, has the boundary invoke the native query, and turns
//! the returned payload into a typed response.  The boundary invocation
//! and the payload deserialization are foreign work performed by the
//! unverified shell; every decision around them is here, with its
//! contract: what is rejected before any boundary call, exactly what is
//! handed across, and how a full response is projected into a simple one.

use vstd::prelude::*;
use vstd::string::StrSliceExecFns;
use crate::errors::OsrmError;
use crate::marshal::{flat_coords, flatten_coordinates, index_range, point_at};
use crate::point::Point;
use crate::route::{RouteRequest, RouteResponse, SimpleRouteResponse};
use crate::tables::{TableRequest, TableResponse};
use crate::trip::TripRequest;

verus! {

/// Everything a native table call takes: the one flat coordinate list and
/// the two index ranges that assign each coordinate its role.
#[derive(Clone, Debug)]
pub struct TableCallPlan {
    pub coordinates: Vec<i64>,
    pub source_indices: Vec<usize>,
    pub destination_indices: Vec<usize>,
}

/// What it means for a plan to marshal `sources` and `destinations`
/// faithfully: the coordinates are the flattened concatenation, sources
/// occupy indices `[0, m)` and destinations `[m, m + n)`.
pub open spec fn table_plan_for(
    sources: Seq<Point>,
    destinations: Seq<Point>,
    plan: TableCallPlan,
) -> bool {
    &&& plan.coordinates@ == flat_coords(sources + destinations)
    &&& plan.source_indices@.len() == sources.len()
    &&& forall|i: int| 0 <= i < sources.len() ==> plan.source_indices@[i] == i
    &&& plan.destination_indices@.len() == destinations.len()
    &&& forall|j: int|
        0 <= j < destinations.len() ==> plan.destination_indices@[j] == sources.len() + j
}

/// Validates a table request and marshals it for the boundary.  An empty
/// source or destination list is rejected here, so no boundary call is
/// ever made for it; otherwise the returned plan is exactly the faithful
/// marshaling of the request.
pub fn prepare_table(request: &TableRequest) -> (r: Result<TableCallPlan, OsrmError>)
    requires
        request.sources@.len() + request.destinations@.len() <= usize::MAX,
    ensures
        r is Err <==> (request.sources@.len() == 0 || request.destinations@.len() == 0),
        r is Err ==> r == Err::<TableCallPlan, OsrmError>(OsrmError::InvalidTableArgument),
        r matches Ok(plan) ==> table_plan_for(request.sources@, request.destinations@, plan),
{
    let m = request.sources.len();
    let n = request.destinations.len();
    if m == 0 || n == 0 {
        return Err(OsrmError::InvalidTableArgument);
    }
    let mut all: Vec<Point> = Vec::new();
    let mut i: usize = 0;
    while i < m
        invariant
            i <= m,
            m == request.sources@.len(),
            all@.len() == i,
            forall|j: int| 0 <= j < i ==> all@[j] == request.sources@[j],
        decreases m - i,
    {
        all.push(request.sources[i]);
        i = i + 1;
    }
    let mut k: usize = 0;
    while k < n
        invariant
            k <= n,
            m == request.sources@.len(),
            n == request.destinations@.len(),
            all@.len() == m + k,
            forall|j: int| 0 <= j < m ==> all@[j] == request.sources@[j],
            forall|j: int| 0 <= j < k ==> all@[m + j] == request.destinations@[j],
        decreases n - k,
    {
        all.push(request.destinations[k]);
        k = k + 1;
    }
    proof {
        assert(all@ =~= request.sources@ + request.destinations@);
    }
    let coordinates = flatten_coordinates(&all);
    let source_indices = index_range(0, m);
    let destination_indices = index_range(m, n);
    Ok(TableCallPlan { coordinates, source_indices, destination_indices })
}

/// Validates a route request and flattens its points.  An empty point
/// list is rejected here, before any boundary call.
pub fn prepare_route(request: &RouteRequest) -> (r: Result<Vec<i64>, OsrmError>)
    ensures
        r is Err <==> request.points@.len() == 0,
        r is Err ==> r == Err::<Vec<i64>, OsrmError>(OsrmError::InvalidTableArgument),
        r matches Ok(coords) ==> coords@ == flat_coords(request.points@),
{
    if request.points.len() == 0 {
        return Err(OsrmError::InvalidTableArgument);
    }
    Ok(flatten_coordinates(&request.points))
}

/// Validates a trip request and flattens its points.  An empty point list
/// is rejected here, before any boundary call.
pub fn prepare_trip(request: &TripRequest) -> (r: Result<Vec<i64>, OsrmError>)
    ensures
        r is Err <==> request.points@.len() == 0,
        r is Err ==> r == Err::<Vec<i64>, OsrmError>(OsrmError::InvalidTableArgument),
        r matches Ok(coords) ==> coords@ == flat_coords(request.points@),
{
    if request.points.len() == 0 {
        return Err(OsrmError::InvalidTableArgument);
    }
    Ok(flatten_coordinates(&request.points))
}

/// Marshals the two endpoints of the common A-to-B case: a two-point
/// route, `from` first.
pub fn prepare_simple_route(from: Point, to: Point) -> (coords: Vec<i64>)
    ensures
        coords@ == flat_coords(seq![from, to]),
{
    let mut points: Vec<Point> = Vec::new();
    points.push(from);
    points.push(to);
    proof {
        assert(points@ =~= seq![from, to]);
    }
    flatten_coordinates(&points)
}

/// Projects a full route response into the simple A-to-B summary: the
/// first leg of the first route.  A response with zero routes is a
/// business-level failure — the projection never silently succeeds when
/// no route exists.  A route whose leg list is empty is ill-formed for
/// this projection and excluded by precondition.
pub fn derive_simple_route(response: RouteResponse) -> (r: Result<SimpleRouteResponse, OsrmError>)
    requires
        response.routes@.len() > 0 ==> response.routes@[0].legs@.len() > 0,
    ensures
        r is Err <==> response.routes@.len() == 0,
        response.routes@.len() == 0 ==> (r matches Err(e) && e matches OsrmError::ApiError(m)
            && m@ == "No route were returned between those 2 points"@),
        r matches Ok(s) ==> {
            &&& s.code == response.code
            &&& s.distance == response.routes@[0].legs@[0].distance
            &&& s.durations == response.routes@[0].legs@[0].duration
        },
{
    if response.routes.len() == 0 {
        return Err(OsrmError::ApiError("No route were returned between those 2 points".to_owned()));
    }
    let first_leg = &response.routes[0].legs[0];
    Ok(SimpleRouteResponse {
        code: response.code,
        distance: first_leg.distance,
        durations: first_leg.duration,
    })
}

/// The construction decision: the native constructor either produced a
/// handle or returned null, and null is an [`OsrmError::Initialization`]
/// failure — the native side gives no further detail to pass on.
pub fn initialization_outcome(handle_obtained: bool) -> (r: Result<(), OsrmError>)
    ensures
        r is Ok <==> handle_obtained,
        !handle_obtained ==> r == Err::<(), OsrmError>(OsrmError::Initialization),
{
    if handle_obtained {
        Ok(())
    } else {
        Err(OsrmError::Initialization)
    }
}

/// Checks that a path can be represented in the foreign-call string
/// encoding, which terminates strings with a NUL character: a path is
/// accepted exactly when it contains no NUL of its own.
pub fn validate_path(path: &str) -> (r: Result<(), OsrmError>)
    ensures
        r is Ok <==> (forall|i: int| 0 <= i < path@.len() ==> path@[i] != '\0'),
        r matches Err(e) ==> (e matches OsrmError::InvalidPath(p) && p@ == path@),
{
    let n = path.unicode_len();
    let mut i: usize = 0;
    while i < n
        invariant
            i <= n,
            n == path@.len(),
            forall|j: int| 0 <= j < i ==> path@[j] != '\0',
        decreases n - i,
    {
        if path.get_char(i) == '\0' {
            return Err(OsrmError::InvalidPath(path.to_owned()));
        }
        i = i + 1;
    }
    Ok(())
}

/// Decides whether a table response has the shape a well-formed request
/// with `rows` sources and `cols` destinations is owed: `rows` rows of
/// `cols` entries each.
pub fn has_table_shape(response: &TableResponse, rows: usize, cols: usize) -> (b: bool)
    ensures
        b <==> (response.durations@.len() == rows && forall|i: int|
            0 <= i < rows ==> response.durations@[i]@.len() == cols),
{
    if response.durations.len() != rows {
        return false;
    }
    let mut i: usize = 0;
    while i < rows
        invariant
            i <= rows,
            rows == response.durations@.len(),
            forall|j: int| 0 <= j < i ==> response.durations@[j]@.len() == cols,
        decreases rows - i,
    {
        if response.durations[i].len() != cols {
            return false;
        }
        i = i + 1;
    }
    true
}

/// Law: recovering the role partition from a table plan by its index
/// ranges reproduces the original point-to-role assignment exactly —
/// source index `i` points at the `i`-th source, destination index `j` at
/// the `j`-th destination.
pub proof fn lemma_table_plan_round_trip(
    sources: Seq<Point>,
    destinations: Seq<Point>,
    plan: TableCallPlan,
)
    requires
        table_plan_for(sources, destinations, plan),
    ensures
        forall|i: int|
            0 <= i < sources.len() ==> #[trigger] point_at(
                plan.coordinates@,
                plan.source_indices@[i] as int,
            ) == sources[i],
        forall|j: int|
            0 <= j < destinations.len() ==> #[trigger] point_at(
                plan.coordinates@,
                plan.destination_indices@[j] as int,
            ) == destinations[j],
{
    let s = sources + destinations;
    crate::marshal::lemma_flatten_round_trip(s);
    assert forall|i: int|
        0 <= i < sources.len() implies point_at(
        plan.coordinates@,
        plan.source_indices@[i] as int,
    ) == sources[i] by {
        assert(plan.source_indices@[i] == i);
        assert(point_at(flat_coords(s), i) == s[i]);
        assert(s[i] == sources[i]);
    }
    assert forall|j: int|
        0 <= j < destinations.len() implies point_at(
        plan.coordinates@,
        plan.destination_indices@[j] as int,
    ) == destinations[j] by {
        let k = sources.len() + j;
        assert(plan.destination_indices@[j] == k);
        assert(point_at(flat_coords(s), k as int) == s[k as int]);
        assert(s[k as int] == destinations[j]);
    }
}

} // verus!
