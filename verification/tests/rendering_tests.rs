use std::collections::HashMap;

use arcgis_rust::feature::{Feature, FeatureLayer, Geometry};
use arcgis_rust::geometry::Point;
use arcgis_rust::rendering::{Layer, MapView};

#[test]
fn test_map_view_creation() {
    let map_view: MapView<FeatureLayer> = MapView::new();
    assert!(map_view.layers.is_empty());
}

#[test]
fn test_add_layer_to_map_view() {
    let mut map_view: MapView<FeatureLayer> = MapView::new();

    let features = vec![Feature {
        geometry: Geometry::Point(Point { x: 1, y: 1 }),
        attributes: HashMap::new(),
    }];
    let feature_layer = FeatureLayer::new(features);
    map_view.add_layer(feature_layer);

    assert_eq!(map_view.layers.len(), 1);
}

#[test]
fn test_render_feature_layer() {
    let features = vec![Feature {
        geometry: Geometry::Point(Point { x: 1, y: 1 }),
        attributes: HashMap::new(),
    }];
    let feature_layer = FeatureLayer::new(features);

    // Rendering borrows the layer and emits one line per feature; the layer
    // itself is left untouched.
    feature_layer.render();

    assert_eq!(feature_layer.features.len(), 1);
}
