//! The feature store: a geometry value paired with named attributes, and an
//! ordered layer of features that can be filtered by spatial containment.

use std::collections::HashMap;
use vstd::prelude::*;

use crate::geometry::{Envelope, LineString, MultiPolygon, Point, Polygon};

verus! {

/// A geometry value: a tagged variant over the kernel's types, so that the
/// query predicate can match on each kind exhaustively.
#[derive(Clone, Debug, PartialEq)]
pub enum Geometry {
    Point(Point),
    LineString(LineString),
    Polygon(Polygon),
    MultiPolygon(MultiPolygon),
}

/// A geographic feature: a geometry value plus a mapping from attribute name
/// to attribute value. Immutable once constructed; consumers clone it, never
/// mutate it in place.
#[derive(Clone, Debug)]
pub struct Feature {
    /// Geometry of the feature.
    pub geometry: Geometry,
    /// Attributes of the feature.
    pub attributes: HashMap<String, String>,
}

/// An ordered collection of geographic features.
pub struct FeatureLayer {
    /// Collection of features in the layer.
    pub features: Vec<Feature>,
}

/// Whether a feature satisfies the spatial predicate for an envelope. Only a
/// point feature can match, and it matches exactly when the envelope contains
/// it; every other geometry kind is excluded — a documented limitation of the
/// query, not an error.
pub open spec fn feature_matches(f: Feature, envelope: Envelope) -> bool {
    match f.geometry {
        Geometry::Point(p) => envelope.spec_contains(p),
        Geometry::LineString(_) => false,
        Geometry::Polygon(_) => false,
        Geometry::MultiPolygon(_) => false,
    }
}

/// The spatial predicate for an envelope, as a function over features.
pub open spec fn matches_pred(envelope: Envelope) -> spec_fn(Feature) -> bool {
    |f: Feature| feature_matches(f, envelope)
}

/// The features behind a sequence of borrows.
pub open spec fn deref_features(s: Seq<&Feature>) -> Seq<Feature> {
    s.map_values(|f: &Feature| *f)
}

impl FeatureLayer {
    /// Creates a layer owning the given features, in the given order.
    pub fn new(features: Vec<Feature>) -> (layer: FeatureLayer)
        ensures
            layer.features@ == features@,
    {
        FeatureLayer { features }
    }

    /// Queries the layer for the features within the given envelope: exactly
    /// those whose geometry satisfies the spatial predicate, in input order.
    /// The result borrows from the layer; nothing is copied or mutated.
    pub fn query<'a>(&'a self, envelope: &Envelope) -> (r: Vec<&'a Feature>)
        ensures
            deref_features(r@) == self.features@.filter(matches_pred(*envelope)),
    {
        let ghost pred = matches_pred(*envelope);
        let mut r: Vec<&'a Feature> = Vec::new();
        let mut i: usize = 0;
        while i < self.features.len()
            invariant
                i <= self.features@.len(),
                deref_features(r@) == self.features@.take(i as int).filter(pred),
                pred == matches_pred(*envelope),
            decreases self.features@.len() - i,
        {
            let ghost prev = r@;
            let f = &self.features[i];
            let matched = match &f.geometry {
                Geometry::Point(p) => envelope.contains(p),
                Geometry::LineString(_) => false,
                Geometry::Polygon(_) => false,
                Geometry::MultiPolygon(_) => false,
            };
            if matched {
                r.push(f);
            }
            proof {
                let s = self.features@;
                assert(s.take(i as int).push(s[i as int]) =~= s.take(i + 1));
                s.take(i as int).lemma_filter_push(s[i as int], pred);
                if matched {
                    assert(deref_features(r@) =~= deref_features(prev).push(s[i as int]));
                }
            }
            i = i + 1;
        }
        proof {
            assert(self.features@.take(self.features@.len() as int) =~= self.features@);
        }
        r
    }
}

/// Law: the query is sound — every feature it returns satisfies the spatial
/// predicate, so no returned point lies strictly outside the envelope; and it
/// preserves input order, being the filter of the layer's feature sequence.
pub proof fn lemma_query_matches(features: Seq<Feature>, envelope: Envelope, i: int)
    requires
        0 <= i < features.filter(matches_pred(envelope)).len(),
    ensures
        feature_matches(features.filter(matches_pred(envelope))[i], envelope),
{
    features.lemma_filter_pred(matches_pred(envelope), i);
}

} // verus!
