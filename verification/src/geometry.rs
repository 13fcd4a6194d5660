//! The geometry kernel: planar value types with integer coordinates, the
//! envelope containment predicate, and the bounding-box buffer operation.

use vstd::prelude::*;

verus! {

/// A planar point. A plain value: copied freely, no identity.
#[derive(Clone, Copy, Debug, PartialEq, Eq, Structural)]
pub struct Point {
    pub x: i32,
    pub y: i32,
}

/// An axis-aligned rectangle given by its minimum and maximum corners.
///
/// Callers are responsible for `min.x <= max.x` and `min.y <= max.y`; the
/// containment predicate does not normalize or validate this. A malformed
/// envelope (a `min` beyond `max`) yields a predicate that is false for every
/// point.
#[derive(Clone, Copy, Debug, PartialEq, Eq, Structural)]
pub struct Envelope {
    /// Minimum corner of the envelope.
    pub min: Point,
    /// Maximum corner of the envelope.
    pub max: Point,
}

/// An ordered sequence of coordinates, describing an open path or (when the
/// first point is repeated at the end) a closed ring.
#[derive(Clone, Debug, PartialEq)]
pub struct LineString {
    pub points: Vec<Point>,
}

/// A polygon: a closed exterior ring, and zero or more interior rings (holes).
/// That a ring is closed and non-self-intersecting is assumed, not enforced.
#[derive(Clone, Debug, PartialEq)]
pub struct Polygon {
    pub exterior: LineString,
    pub interiors: Vec<LineString>,
}

/// Zero or more disjoint polygons.
#[derive(Clone, Debug, PartialEq)]
pub struct MultiPolygon {
    pub polygons: Vec<Polygon>,
}

impl View for LineString {
    type V = Seq<Point>;

    open spec fn view(&self) -> Seq<Point> {
        self.points@
    }
}

impl View for Polygon {
    /// A polygon is seen as its rings: the exterior first, then the holes.
    type V = Seq<Seq<Point>>;

    open spec fn view(&self) -> Seq<Seq<Point>> {
        seq![self.exterior@] + self.interiors@.map_values(|ls: LineString| ls@)
    }
}

impl View for MultiPolygon {
    type V = Seq<Seq<Seq<Point>>>;

    open spec fn view(&self) -> Seq<Seq<Seq<Point>>> {
        self.polygons@.map_values(|p: Polygon| p@)
    }
}

impl Envelope {
    /// What it means for a point to lie within the envelope: both coordinates
    /// within the inclusive bounds.
    pub open spec fn spec_contains(self, point: Point) -> bool {
        &&& self.min.x <= point.x <= self.max.x
        &&& self.min.y <= point.y <= self.max.y
    }

    /// Checks whether a point lies within the envelope, inclusive on all four
    /// bounds.
    pub fn contains(&self, point: &Point) -> (r: bool)
        ensures
            r == self.spec_contains(*point),
    {
        point.x >= self.min.x && point.x <= self.max.x && point.y >= self.min.y
            && point.y <= self.max.y
    }
}

/// Law: containment holds exactly when both coordinates lie within the
/// inclusive bounds, so points exactly on an edge are included.
pub proof fn lemma_contains_inclusive_bounds(e: Envelope, p: Point)
    ensures
        e.spec_contains(p) <==> (e.min.x <= p.x <= e.max.x && e.min.y <= p.y <= e.max.y),
{
}

/// Law: a well-formed envelope contains its own corners.
pub proof fn lemma_contains_own_corners(e: Envelope)
    requires
        e.min.x <= e.max.x,
        e.min.y <= e.max.y,
    ensures
        e.spec_contains(e.min),
        e.spec_contains(e.max),
{
}

/// An invalid geometry input, reported to the caller rather than defaulted.
#[derive(Clone, Copy, Debug, PartialEq, Eq, Structural)]
pub enum GeometryError {
    /// The input holds no points, so no bounding rectangle is definable.
    EmptyInput,
}

/// The least x coordinate among the points of a non-empty sequence.
pub open spec fn min_x(s: Seq<Point>) -> int
    decreases s.len(),
{
    if s.len() <= 1 {
        s[0].x as int
    } else {
        let m = min_x(s.drop_last());
        if s.last().x < m {
            s.last().x as int
        } else {
            m
        }
    }
}

/// The greatest x coordinate among the points of a non-empty sequence.
pub open spec fn max_x(s: Seq<Point>) -> int
    decreases s.len(),
{
    if s.len() <= 1 {
        s[0].x as int
    } else {
        let m = max_x(s.drop_last());
        if s.last().x > m {
            s.last().x as int
        } else {
            m
        }
    }
}

/// The least y coordinate among the points of a non-empty sequence.
pub open spec fn min_y(s: Seq<Point>) -> int
    decreases s.len(),
{
    if s.len() <= 1 {
        s[0].y as int
    } else {
        let m = min_y(s.drop_last());
        if s.last().y < m {
            s.last().y as int
        } else {
            m
        }
    }
}

/// The greatest y coordinate among the points of a non-empty sequence.
pub open spec fn max_y(s: Seq<Point>) -> int
    decreases s.len(),
{
    if s.len() <= 1 {
        s[0].y as int
    } else {
        let m = max_y(s.drop_last());
        if s.last().y > m {
            s.last().y as int
        } else {
            m
        }
    }
}

/// The closed ring of the axis-aligned rectangle with corners `(x0, y0)` and
/// `(x1, y1)`, walked counter-clockwise from the minimum corner.
pub open spec fn is_rect_ring(x0: int, y0: int, x1: int, y1: int, ring: Seq<Point>) -> bool {
    &&& ring.len() == 5
    &&& ring[0].x == x0 && ring[0].y == y0
    &&& ring[1].x == x1 && ring[1].y == y0
    &&& ring[2].x == x1 && ring[2].y == y1
    &&& ring[3].x == x0 && ring[3].y == y1
    &&& ring[4] == ring[0]
}

/// The bounds that keep the inflated rectangle's corners within `i32`.
pub open spec fn buffer_fits(s: Seq<Point>, d: int) -> bool {
    &&& i32::MIN <= min_x(s) - d <= i32::MAX
    &&& i32::MIN <= max_x(s) + d <= i32::MAX
    &&& i32::MIN <= min_y(s) - d <= i32::MAX
    &&& i32::MIN <= max_y(s) + d <= i32::MAX
}

/// Returns the axis-aligned bounding rectangle of `line`, expanded outward by
/// `distance` on both axes. This is deliberately a bounding-box inflation, not
/// a true offset buffer along the line's perpendicular. Fails exactly when the
/// line holds no points, since no bounding rectangle is definable then.
pub fn buffer(line: &LineString, distance: i32) -> (r: Result<Polygon, GeometryError>)
    requires
        line@.len() > 0 ==> buffer_fits(line@, distance as int),
    ensures
        match r {
            Ok(p) => {
                &&& line@.len() > 0
                &&& p.interiors@.len() == 0
                &&& is_rect_ring(
                    min_x(line@) - distance,
                    min_y(line@) - distance,
                    max_x(line@) + distance,
                    max_y(line@) + distance,
                    p.exterior@,
                )
            },
            Err(e) => line@.len() == 0 && e == GeometryError::EmptyInput,
        },
{
    if line.points.len() == 0 {
        return Err(GeometryError::EmptyInput);
    }
    let first = line.points[0];
    let mut mn_x = first.x;
    let mut mx_x = first.x;
    let mut mn_y = first.y;
    let mut mx_y = first.y;
    let mut i: usize = 1;
    while i < line.points.len()
        invariant
            1 <= i <= line@.len(),
            mn_x == min_x(line@.take(i as int)),
            mx_x == max_x(line@.take(i as int)),
            mn_y == min_y(line@.take(i as int)),
            mx_y == max_y(line@.take(i as int)),
        decreases line@.len() - i,
    {
        proof {
            assert(line@.take(i + 1).drop_last() =~= line@.take(i as int));
        }
        let p = line.points[i];
        if p.x < mn_x {
            mn_x = p.x;
        }
        if p.x > mx_x {
            mx_x = p.x;
        }
        if p.y < mn_y {
            mn_y = p.y;
        }
        if p.y > mx_y {
            mx_y = p.y;
        }
        i = i + 1;
    }
    proof {
        assert(line@.take(line@.len() as int) =~= line@);
    }
    let x0 = mn_x - distance;
    let y0 = mn_y - distance;
    let x1 = mx_x + distance;
    let y1 = mx_y + distance;
    let ring = vec![
        Point { x: x0, y: y0 },
        Point { x: x1, y: y0 },
        Point { x: x1, y: y1 },
        Point { x: x0, y: y1 },
        Point { x: x0, y: y0 },
    ];
    Ok(Polygon { exterior: LineString { points: ring }, interiors: Vec::new() })
}

/// Law: with distance zero the buffer is the line's exact bounding rectangle.
pub proof fn lemma_buffer_zero_is_bounding_rect(s: Seq<Point>, ring: Seq<Point>)
    requires
        s.len() > 0,
    ensures
        is_rect_ring(min_x(s) - 0, min_y(s) - 0, max_x(s) + 0, max_y(s) + 0, ring)
            <==> is_rect_ring(min_x(s), min_y(s), max_x(s), max_y(s), ring),
{
}

/// Whether the point `(px, py)` lies within the axis-aligned rectangle with
/// corners `(x0, y0)` and `(x1, y1)`, inclusive on all four bounds.
pub open spec fn in_rect(x0: int, y0: int, x1: int, y1: int, px: int, py: int) -> bool {
    x0 <= px <= x1 && y0 <= py <= y1
}

/// Law: the buffer is monotonic in the distance — a larger distance never
/// shrinks the output rectangle. Every point within the rectangle inflated by
/// `d1` also lies within the rectangle inflated by any `d2 >= d1`.
pub proof fn lemma_buffer_monotonic(s: Seq<Point>, d1: int, d2: int, px: int, py: int)
    requires
        s.len() > 0,
        d1 <= d2,
        in_rect(min_x(s) - d1, min_y(s) - d1, max_x(s) + d1, max_y(s) + d1, px, py),
    ensures
        in_rect(min_x(s) - d2, min_y(s) - d2, max_x(s) + d2, max_y(s) + d2, px, py),
{
}

} // verus!
