use std::collections::HashMap;

use arcgis_rust::bool_ops::{intersection, union};
use arcgis_rust::contains_point;
use arcgis_rust::feature::{Feature, FeatureLayer, Geometry};
use arcgis_rust::geometry::{buffer, Envelope, GeometryError, LineString, Point, Polygon};
use arcgis_rust::rendering::MapView;
use arcgis_rust::tasks::{classify_response, parse_location, TaskError};

fn square(x0: i32, y0: i32, x1: i32, y1: i32) -> Polygon {
    Polygon {
        exterior: LineString {
            points: vec![
                Point { x: x0, y: y0 },
                Point { x: x1, y: y0 },
                Point { x: x1, y: y1 },
                Point { x: x0, y: y1 },
                Point { x: x0, y: y0 },
            ],
        },
        interiors: vec![],
    }
}

fn sorted_corners(ring: &[Point]) -> Vec<Point> {
    let mut corners: Vec<Point> = ring.to_vec();
    corners.sort_by(|a, b| a.x.cmp(&b.x).then(a.y.cmp(&b.y)));
    corners.dedup();
    corners
}

#[test]
fn test_envelope_contains_boundary_and_corners() {
    let envelope = Envelope { min: Point { x: 0, y: 0 }, max: Point { x: 10, y: 10 } };
    // Points exactly on an edge are included.
    assert!(envelope.contains(&Point { x: 0, y: 5 }));
    assert!(envelope.contains(&Point { x: 10, y: 5 }));
    assert!(envelope.contains(&Point { x: 5, y: 0 }));
    assert!(envelope.contains(&Point { x: 5, y: 10 }));
    // The envelope's own corners are contained.
    assert!(envelope.contains(&envelope.min));
    assert!(envelope.contains(&envelope.max));
    // One coordinate out of bounds is enough to exclude.
    assert!(!envelope.contains(&Point { x: 11, y: 5 }));
    assert!(!envelope.contains(&Point { x: 5, y: -1 }));
}

#[test]
fn test_malformed_envelope_contains_nothing() {
    let envelope = Envelope { min: Point { x: 10, y: 10 }, max: Point { x: 0, y: 0 } };
    assert!(!envelope.contains(&Point { x: 5, y: 5 }));
    assert!(!envelope.contains(&envelope.min));
    assert!(!envelope.contains(&envelope.max));
}

#[test]
fn test_contains_point_scenario() {
    assert!(contains_point(0, 0, 10, 10, 5, 5));
    assert!(!contains_point(0, 0, 10, 10, 15, 15));
}

#[test]
fn test_intersection_commutative() {
    let a = square(0, 0, 10, 10);
    let b = square(5, 5, 15, 15);
    assert_eq!(intersection(&a, &b), intersection(&b, &a));
}

#[test]
fn test_union_commutative() {
    let a = square(0, 0, 10, 10);
    let b = square(5, 5, 15, 15);
    assert_eq!(union(&a, &b), union(&b, &a));
}

#[test]
fn test_union_idempotent_outline() {
    let a = square(0, 0, 10, 10);
    let result = union(&a, &a);
    assert_eq!(result.polygons.len(), 1);
    assert!(result.polygons[0].interiors.is_empty());
    assert_eq!(
        sorted_corners(&result.polygons[0].exterior.points),
        sorted_corners(&a.exterior.points)
    );
}

#[test]
fn test_intersection_disjoint_is_empty() {
    let a = square(0, 0, 10, 10);
    let b = square(20, 20, 30, 30);
    let result = intersection(&a, &b);
    assert!(result.polygons.is_empty());
}

#[test]
fn test_union_disjoint_keeps_both() {
    let a = square(0, 0, 10, 10);
    let b = square(20, 20, 30, 30);
    let result = union(&a, &b);
    assert_eq!(result.polygons.len(), 2);
}

#[test]
fn test_buffer_zero_is_bounding_rect() {
    let line = LineString { points: vec![Point { x: 2, y: 3 }, Point { x: 7, y: 1 }] };
    let result = buffer(&line, 0).unwrap();
    let expected = Polygon {
        exterior: LineString {
            points: vec![
                Point { x: 2, y: 1 },
                Point { x: 7, y: 1 },
                Point { x: 7, y: 3 },
                Point { x: 2, y: 3 },
                Point { x: 2, y: 1 },
            ],
        },
        interiors: vec![],
    };
    assert_eq!(result, expected);
}

#[test]
fn test_buffer_monotonic_in_distance() {
    let line = LineString { points: vec![Point { x: 0, y: 0 }, Point { x: 10, y: 0 }] };
    let small = buffer(&line, 1).unwrap();
    let large = buffer(&line, 3).unwrap();
    let small_min = small.exterior.points[0];
    let small_max = small.exterior.points[2];
    let large_min = large.exterior.points[0];
    let large_max = large.exterior.points[2];
    // The larger distance never shrinks the rectangle.
    assert!(large_min.x <= small_min.x && large_min.y <= small_min.y);
    assert!(large_max.x >= small_max.x && large_max.y >= small_max.y);
}

#[test]
fn test_buffer_empty_line_is_error() {
    let empty = LineString { points: vec![] };
    assert_eq!(buffer(&empty, 1), Err(GeometryError::EmptyInput));
}

#[test]
fn test_query_preserves_order_and_excludes_non_points() {
    let inside_a = Feature {
        geometry: Geometry::Point(Point { x: 1, y: 1 }),
        attributes: HashMap::new(),
    };
    let outside = Feature {
        geometry: Geometry::Point(Point { x: 50, y: 50 }),
        attributes: HashMap::new(),
    };
    let inside_b = Feature {
        geometry: Geometry::Point(Point { x: 2, y: 2 }),
        attributes: HashMap::new(),
    };
    let line_feature = Feature {
        geometry: Geometry::LineString(LineString {
            points: vec![Point { x: 1, y: 1 }, Point { x: 2, y: 2 }],
        }),
        attributes: HashMap::new(),
    };
    let layer = FeatureLayer::new(vec![
        inside_a.clone(),
        outside,
        line_feature,
        inside_b.clone(),
    ]);
    let envelope = Envelope { min: Point { x: 0, y: 0 }, max: Point { x: 10, y: 10 } };
    let result = layer.query(&envelope);
    assert_eq!(result.len(), 2);
    assert_eq!(result[0].geometry, inside_a.geometry);
    assert_eq!(result[1].geometry, inside_b.geometry);
}

#[test]
fn test_empty_map_view_render_is_noop() {
    let map_view: MapView<FeatureLayer> = MapView::new();
    map_view.render();
    assert!(map_view.layers.is_empty());
}

#[test]
fn test_classify_response_success_returns_body() {
    assert_eq!(classify_response(200, "done".to_string()), Ok("done".to_string()));
    assert_eq!(classify_response(299, "ok".to_string()), Ok("ok".to_string()));
}

#[test]
fn test_classify_response_failure_carries_status_and_body() {
    assert_eq!(
        classify_response(404, "missing".to_string()),
        Err(TaskError::Remote(404, "missing".to_string()))
    );
    assert_eq!(
        classify_response(300, "redirect".to_string()),
        Err(TaskError::Remote(300, "redirect".to_string()))
    );
}

#[test]
fn test_parse_location_yields_origin() {
    let location = parse_location("any response text");
    assert_eq!(location, Point { x: 0, y: 0 });
}
