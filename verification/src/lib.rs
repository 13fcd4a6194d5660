//! A minimal geospatial client runtime: a geometry kernel over integer
//! coordinates, a feature store with spatial queries, layer composition for a
//! map view, and the synchronous decision logic of the remote task clients.

use vstd::prelude::*;

pub mod bool_ops;
pub mod feature;
pub mod geometry;
pub mod rendering;
pub mod tasks;

verus! {

/// Creates a point from a pair of coordinates.
pub fn create_point(x: i32, y: i32) -> (p: geometry::Point)
    ensures
        p == (geometry::Point { x, y }),
{
    geometry::Point { x, y }
}

/// Checks whether the point lies within the envelope spanned by the given
/// minimum and maximum corners, inclusive on all four bounds.
pub fn contains_point(
    envelope_min_x: i32,
    envelope_min_y: i32,
    envelope_max_x: i32,
    envelope_max_y: i32,
    point_x: i32,
    point_y: i32,
) -> (r: bool)
    ensures
        r == (envelope_min_x <= point_x <= envelope_max_x && envelope_min_y <= point_y
            <= envelope_max_y),
{
    let min = geometry::Point { x: envelope_min_x, y: envelope_min_y };
    let max = geometry::Point { x: envelope_max_x, y: envelope_max_y };
    let envelope = geometry::Envelope { min, max };
    let point = geometry::Point { x: point_x, y: point_y };
    envelope.contains(&point)
}

} // verus!
