//! Polygon set operations. The robust planar boolean algorithm is not
//! re-derived here: the work is done by i_overlay, the sweep-based integer
//! overlay engine that also powers geo's `BooleanOps`, driven with the same
//! configuration geo uses (even-odd fill rule, OGC-valid output).

use vstd::multiset::Multiset;
use vstd::prelude::*;

use crate::geometry::{LineString, MultiPolygon, Point, Polygon};

verus! {

/// The overlay engine's planar point: a plain pair of `i32` coordinates,
/// opaque here and only carried between the converters below.
#[verifier::external_type_specification]
#[verifier::external_body]
pub struct ExIntPoint(i_overlay::i_float::int::point::IntPoint);

/// The unordered pair of two polygons, each seen as its rings. Stated as a
/// multiset so that contracts over it do not depend on argument order.
pub open spec fn input_pair(a: Seq<Seq<Point>>, b: Seq<Seq<Point>>) -> Multiset<
    Seq<Seq<Point>>,
> {
    Multiset::empty().insert(a).insert(b)
}

/// The geometric set intersection of a pair of polygons, as the overlay
/// engine extracts it: zero or more disjoint closed regions.
pub uninterp spec fn inter_of(inputs: Multiset<Seq<Seq<Point>>>) -> Seq<Seq<Seq<Point>>>;

/// The geometric set union of a pair of polygons, as the overlay engine
/// extracts it: the merged outlines, or both inputs where they do not touch.
pub uninterp spec fn union_of(inputs: Multiset<Seq<Seq<Point>>>) -> Seq<Seq<Seq<Point>>>;

/// Converts a polygon's rings (the exterior first, then the holes) to the
/// overlay engine's integer contours. Relies on i_float's `IntPoint::new`
/// making a plain `(x, y)` pair; each coordinate is carried over one for one.
#[verifier::external_body]
fn to_contours(p: &Polygon) -> Vec<Vec<i_overlay::i_float::int::point::IntPoint>> {
    let ring = |ls: &LineString| ls.points.iter().map(|q| i_overlay::i_float::int::point::IntPoint::new(q.x, q.y)).collect();
    let mut contours: Vec<Vec<i_overlay::i_float::int::point::IntPoint>> = Vec::with_capacity(1 + p.interiors.len());
    contours.push(ring(&p.exterior));
    for ls in p.interiors.iter() {
        contours.push(ring(ls));
    }
    contours
}

/// Converts the overlay engine's integer shapes back to a multipolygon,
/// coordinate for coordinate. The first contour of a shape is the exterior
/// ring, the rest are holes; as in geo's converter, each ring is closed by
/// repeating its first point at the end.
#[verifier::external_body]
fn to_multi_polygon(shapes: Vec<Vec<Vec<i_overlay::i_float::int::point::IntPoint>>>) -> MultiPolygon {
    let close_ring = |c: Vec<i_overlay::i_float::int::point::IntPoint>| {
        let mut points: Vec<Point> = c.into_iter().map(|q| Point { x: q.x, y: q.y }).collect();
        if let Some(&first) = points.first() {
            points.push(first);
        }
        LineString { points }
    };
    let mut polygons: Vec<Polygon> = Vec::new();
    for shape in shapes {
        let mut rings = shape.into_iter().map(close_ring);
        let exterior = rings.next().unwrap_or(LineString { points: Vec::new() });
        polygons.push(Polygon { exterior, interiors: rings.collect() });
    }
    MultiPolygon { polygons }
}

/// Calculates the geometric set intersection of two polygons, expressed as
/// zero, one, or more disjoint closed regions. An empty result is a valid,
/// non-error outcome when the inputs do not overlap.
///
/// Relies on i_overlay's `Overlay::overlay` with the `Intersect` rule; its
/// documentation states the operation is commutative (the order of subject
/// and clip does not impact the outcome), so the contract speaks of the
/// unordered pair of inputs.
#[verifier::external_body]
pub fn intersection(poly1: &Polygon, poly2: &Polygon) -> (r: MultiPolygon)
    ensures
        r@ == inter_of(input_pair(poly1@, poly2@)),
{
    let subj = to_contours(poly1);
    let clip = to_contours(poly2);
    let mut overlay = i_overlay::core::overlay::Overlay::with_contours_custom(
        &subj,
        &clip,
        i_overlay::core::overlay::IntOverlayOptions::ogc(),
        Default::default(),
    );
    to_multi_polygon(overlay.overlay(
        i_overlay::core::overlay_rule::OverlayRule::Intersect,
        i_overlay::core::fill_rule::FillRule::EvenOdd,
    ))
}

/// Merges two polygons into their symmetric set union: the merged outlines
/// where the inputs overlap or touch, and both inputs as disjoint regions
/// where they do not.
///
/// Relies on i_overlay's `Overlay::overlay` with the `Union` rule; its
/// documentation states the operation is commutative (the order of subject
/// and clip does not impact the outcome), so the contract speaks of the
/// unordered pair of inputs.
#[verifier::external_body]
pub fn union(poly1: &Polygon, poly2: &Polygon) -> (r: MultiPolygon)
    ensures
        r@ == union_of(input_pair(poly1@, poly2@)),
{
    let subj = to_contours(poly1);
    let clip = to_contours(poly2);
    let mut overlay = i_overlay::core::overlay::Overlay::with_contours_custom(
        &subj,
        &clip,
        i_overlay::core::overlay::IntOverlayOptions::ogc(),
        Default::default(),
    );
    to_multi_polygon(overlay.overlay(
        i_overlay::core::overlay_rule::OverlayRule::Union,
        i_overlay::core::fill_rule::FillRule::EvenOdd,
    ))
}

/// Law: intersection is commutative — the unordered pair of inputs, and with
/// it the result, is the same whichever way the two polygons are passed.
pub proof fn lemma_intersection_commutative(a: Seq<Seq<Point>>, b: Seq<Seq<Point>>)
    ensures
        inter_of(input_pair(a, b)) == inter_of(input_pair(b, a)),
{
    assert(input_pair(a, b) =~= input_pair(b, a));
}

/// Law: union is commutative — the unordered pair of inputs, and with it the
/// result, is the same whichever way the two polygons are passed.
pub proof fn lemma_union_commutative(a: Seq<Seq<Point>>, b: Seq<Seq<Point>>)
    ensures
        union_of(input_pair(a, b)) == union_of(input_pair(b, a)),
{
    assert(input_pair(a, b) =~= input_pair(b, a));
}

} // verus!
