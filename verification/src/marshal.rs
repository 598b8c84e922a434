//! The flat coordinate calling convention.
//!
//! The native engine takes one flat sequence of alternating longitude and
//! latitude values — longitude first, a load-bearing convention — plus,
//! for table queries, two index sequences that reinterpret ranges of that
//! one list as sources and destinations.  Everything here is exact: the
//! round-trip law at the bottom shows the flattening loses nothing.

use vstd::prelude::*;
use crate::point::Point;

verus! {

/// The flat form of a point sequence: point `i` contributes its longitude
/// at position `2*i` and its latitude at position `2*i + 1`.
pub open spec fn flat_coords(points: Seq<Point>) -> Seq<i64> {
    Seq::new(
        points.len() * 2,
        |k: int| if k % 2 == 0 {
            points[k / 2].longitude
        } else {
            points[k / 2].latitude
        },
    )
}

/// The point encoded at index `i` of a flat coordinate sequence.
pub open spec fn point_at(coords: Seq<i64>, i: int) -> Point {
    Point { latitude: coords[2 * i + 1], longitude: coords[2 * i] }
}

/// Flattens points into the interleaved longitude-first sequence the
/// native calls expect.
pub fn flatten_coordinates(points: &Vec<Point>) -> (flat: Vec<i64>)
    ensures
        flat@ == flat_coords(points@),
{
    let n = points.len();
    let mut flat: Vec<i64> = Vec::new();
    let mut i: usize = 0;
    while i < n
        invariant
            i <= n,
            n == points@.len(),
            flat@.len() == 2 * i,
            forall|j: int|
                0 <= j < i ==> flat@[2 * j] == points@[j].longitude
                    && flat@[2 * j + 1] == points@[j].latitude,
        decreases n - i,
    {
        let p = points[i];
        flat.push(p.longitude);
        flat.push(p.latitude);
        i = i + 1;
    }
    proof {
        assert forall|k: int| 0 <= k < flat@.len() implies flat@[k] == flat_coords(points@)[k] by {
            let j = k / 2;
            if k % 2 == 0 {
                assert(k == 2 * j);
            } else {
                assert(k == 2 * j + 1);
            }
        }
        assert(flat@ =~= flat_coords(points@));
    }
    flat
}

/// Recovers the points encoded in a flat coordinate sequence.
pub fn unflatten_coordinates(coords: &Vec<i64>) -> (points: Vec<Point>)
    requires
        coords@.len() % 2 == 0,
    ensures
        points@.len() * 2 == coords@.len(),
        forall|i: int| 0 <= i < points@.len() ==> points@[i] == point_at(coords@, i),
        flat_coords(points@) == coords@,
{
    let total = coords.len();
    let n = total / 2;
    let mut points: Vec<Point> = Vec::new();
    let mut i: usize = 0;
    while i < n
        invariant
            i <= n,
            total == coords@.len(),
            n == total / 2,
            total % 2 == 0,
            points@.len() == i,
            forall|j: int| 0 <= j < i ==> points@[j] == point_at(coords@, j),
        decreases n - i,
    {
        let lon = coords[2 * i];
        let lat = coords[2 * i + 1];
        points.push(Point { latitude: lat, longitude: lon });
        i = i + 1;
    }
    proof {
        assert(points@.len() * 2 == coords@.len());
        assert forall|k: int| 0 <= k < coords@.len() implies flat_coords(points@)[k] == coords@[k] by {
            let j = k / 2;
            if k % 2 == 0 {
                assert(k == 2 * j);
                assert(points@[j] == point_at(coords@, j));
            } else {
                assert(k == 2 * j + 1);
                assert(points@[j] == point_at(coords@, j));
            }
        }
        assert(flat_coords(points@) =~= coords@);
    }
    points
}

/// The contiguous index range `[start, start + count)`, the shape in which
/// the native table call learns which coordinates play which role.
pub fn index_range(start: usize, count: usize) -> (r: Vec<usize>)
    requires
        start + count <= usize::MAX,
    ensures
        r@.len() == count,
        forall|i: int| 0 <= i < count ==> r@[i] == start + i,
{
    let mut r: Vec<usize> = Vec::new();
    let mut i: usize = 0;
    while i < count
        invariant
            i <= count,
            start + count <= usize::MAX,
            r@.len() == i,
            forall|j: int| 0 <= j < i ==> r@[j] == start + j,
        decreases count - i,
    {
        r.push(start + i);
        i = i + 1;
    }
    r
}

/// Law: reading a flattened sequence back point by point reproduces the
/// original points exactly — the flat convention loses nothing.
pub proof fn lemma_flatten_round_trip(points: Seq<Point>)
    ensures
        forall|i: int|
            0 <= i < points.len() ==> #[trigger] point_at(flat_coords(points), i) == points[i],
{
    assert forall|i: int|
        0 <= i < points.len() implies point_at(flat_coords(points), i) == points[i] by {
        assert(flat_coords(points)[2 * i] == points[i].longitude);
        assert(flat_coords(points)[2 * i + 1] == points[i].latitude);
    }
}

} // verus!
