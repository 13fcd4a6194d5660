use std::collections::HashMap;

use arcgis_rust::feature::{Feature, FeatureLayer, Geometry};
use arcgis_rust::geometry::{Envelope, Point};

#[test]
fn test_feature_layer_query() {
    let point1 = Point { x: 5, y: 5 };
    let point2 = Point { x: 15, y: 15 };
    let feature1 = Feature { geometry: Geometry::Point(point1), attributes: HashMap::new() };
    let feature2 = Feature { geometry: Geometry::Point(point2), attributes: HashMap::new() };
    let layer = FeatureLayer { features: vec![feature1.clone(), feature2.clone()] };

    let envelope = Envelope { min: Point { x: 0, y: 0 }, max: Point { x: 10, y: 10 } };
    let result = layer.query(&envelope);

    assert_eq!(result.len(), 1);
    assert_eq!(result[0].geometry, Geometry::Point(point1));
}
