//! Tags for shape kinds.
//!
//! An algorithm trait such as `BoundingRectTrait` takes a tag as a type
//! parameter and is implemented once per (tag, capability) pair. Each shape
//! type names the one tag of its kind, so a call on a shape reaches exactly
//! one implementation, although the capability traits could overlap.
use vstd::prelude::*;

verus! {

/// A tag type: one per shape kind, never constructed.
pub trait GeoTypeMarker {}

/// Tag of the coordinate kind.
pub struct CoordTraitExtMarker;

/// Tag of the point kind.
pub struct PointTraitExtMarker;

/// Tag of the line-string kind.
pub struct LineStringTraitExtMarker;

/// Tag of the polygon kind.
pub struct PolygonTraitExtMarker;

/// Tag of the multi-point kind.
pub struct MultiPointTraitExtMarker;

/// Tag of the multi-line-string kind.
pub struct MultiLineStringTraitExtMarker;

/// Tag of the multi-polygon kind.
pub struct MultiPolygonTraitExtMarker;

/// Tag of the geometry-collection kind.
pub struct GeometryCollectionTraitExtMarker;

/// Tag of the tagged-union geometry kind.
pub struct GeometryTraitExtMarker;

/// Tag of the line (segment) kind.
pub struct LineTraitExtMarker;

/// Tag of the rectangle kind.
pub struct RectTraitExtMarker;

/// Tag of the triangle kind.
pub struct TriangleTraitExtMarker;

impl GeoTypeMarker for CoordTraitExtMarker {}

impl GeoTypeMarker for PointTraitExtMarker {}

impl GeoTypeMarker for LineStringTraitExtMarker {}

impl GeoTypeMarker for PolygonTraitExtMarker {}

impl GeoTypeMarker for MultiPointTraitExtMarker {}

impl GeoTypeMarker for MultiLineStringTraitExtMarker {}

impl GeoTypeMarker for MultiPolygonTraitExtMarker {}

impl GeoTypeMarker for GeometryCollectionTraitExtMarker {}

impl GeoTypeMarker for GeometryTraitExtMarker {}

impl GeoTypeMarker for LineTraitExtMarker {}

impl GeoTypeMarker for RectTraitExtMarker {}

impl GeoTypeMarker for TriangleTraitExtMarker {}

/// A shape type that declares the tag of its kind.
pub trait GeoTraitExtWithTypeMarker {
    type Marker: GeoTypeMarker;
}

} // verus!
