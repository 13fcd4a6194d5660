use arcgis_rust::feature::FeatureLayer;
use arcgis_rust::rendering::MapView;

#[test]
fn map_view_test_test_map_view_creation() {
    // A freshly created map view owns no layers.
    let map_view: MapView<FeatureLayer> = MapView::new();
    assert!(map_view.layers.is_empty());
}
