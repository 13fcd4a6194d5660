//! Layer composition: the `Layer` capability, the `MapView` that owns an
//! ordered sequence of layers and renders them in insertion order, and the
//! placeholder feature-layer visualization.

use std::io::Write;
use vstd::prelude::*;

use crate::feature::{Feature, FeatureLayer};

verus! {

/// The capability of anything renderable within a map view: a single render
/// operation, callable any number of times, side-effect-free with respect to
/// the core's own state.
pub trait Layer {
    /// Renders the layer.
    fn render(&self);
}

/// The owner and render-order coordinator of an ordered sequence of layers.
/// Rendering order is insertion order: later layers draw on top. The opaque
/// rendering surface a windowed application would pair with it is out of
/// scope here.
pub struct MapView<L: Layer> {
    /// Collection of layers to be rendered, in insertion order.
    pub layers: Vec<L>,
}

impl<L: Layer> MapView<L> {
    /// Creates a map view owning no layers yet.
    pub fn new() -> (view: Self)
        ensures
            view.layers@.len() == 0,
    {
        MapView { layers: Vec::new() }
    }

    /// Transfers ownership of `layer` into the view, appending it at the end
    /// of the rendering order.
    pub fn add_layer(&mut self, layer: L)
        ensures
            final(self).layers@ == old(self).layers@.push(layer),
    {
        self.layers.push(layer);
    }

    /// Renders every layer in insertion order, synchronously. With no layers
    /// this performs no operation; rendering surfaces no errors.
    pub fn render(&self) {
        let mut i: usize = 0;
        while i < self.layers.len()
            invariant
                i <= self.layers@.len(),
            decreases self.layers@.len() - i,
        {
            self.layers[i].render();
            i = i + 1;
        }
    }
}

/// Relies on `std::io::Stdout::write_fmt` (through `writeln`): prints one
/// feature's debug representation as the placeholder visualization. The
/// library's own state is untouched, and a write error is discarded as the
/// render contract surfaces none.
#[verifier::external_body]
fn emit_feature(feature: &Feature) {
    let _ = writeln!(std::io::stdout(), "{:?}", feature);
}

impl Layer for FeatureLayer {
    /// Renders the feature layer by emitting a per-feature debug
    /// representation — a placeholder visualization; real rasterization is
    /// out of scope and belongs to a collaborator graphics backend.
    fn render(&self) {
        let mut i: usize = 0;
        while i < self.features.len()
            invariant
                i <= self.features@.len(),
            decreases self.features@.len() - i,
        {
            emit_feature(&self.features[i]);
            i = i + 1;
        }
    }
}

} // verus!
