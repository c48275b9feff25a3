//! Bounding rectangles of planar geometries.
//!
//! Each shape kind (coordinate, point, line, line string, polygon,
//! multi-point, multi-line-string, multi-polygon, triangle, rectangle,
//! geometry collection, and the tagged-union geometry) is read through a
//! small capability trait: a count, indexed access, and a view of what the
//! shape holds. One routine per kind computes the bounding rectangle over
//! that capability, so any type that offers it gets the computation.
//!
//! The capability traits could overlap on one type, so the algorithm trait
//! `BoundingRectTrait` is keyed by a tag type instead, one per kind
//! (`marker`). Each shape type names its tag, and `BoundingRect` follows it
//! to the one implementation of that kind.
//!
//! Shapes that are never empty (coordinate, line, triangle, rectangle) have
//! a `Rect`; the others have an `Option<Rect>`, absent when they hold no
//! coordinate. Coordinates are generic over a `PartialOrd + Copy` component
//! type; components that do not compare are resolved by a fixed tie-break
//! (see `order`).
pub mod bounding_rect;
pub mod bounds;
pub mod coord;
pub mod geometry;
pub mod laws;
pub mod line;
pub mod line_string;
pub mod marker;
pub mod multi_line_string;
pub mod multi_point;
pub mod multi_polygon;
pub mod order;
pub mod point;
pub mod polygon;
pub mod rect;
pub mod triangle;
pub mod unimplemented;

pub use bounding_rect::{bounding_rect_merge, BoundingRect, BoundingRectTrait};
pub use coord::{Coord, CoordTrait, CoordTraitExt};
pub use geometry::{
    Geometry, GeometryCollection, GeometryCollectionTrait, GeometryCollectionTraitExt,
    GeometryTrait, GeometryTraitExt, GeometryType,
};
pub use line::{Line, LineTrait, LineTraitExt};
pub use line_string::{LineString, LineStringTrait, LineStringTraitExt};
pub use marker::{
    CoordTraitExtMarker, GeoTraitExtWithTypeMarker, GeoTypeMarker,
    GeometryCollectionTraitExtMarker, GeometryTraitExtMarker, LineStringTraitExtMarker,
    LineTraitExtMarker, MultiLineStringTraitExtMarker, MultiPointTraitExtMarker,
    MultiPolygonTraitExtMarker, PointTraitExtMarker, PolygonTraitExtMarker, RectTraitExtMarker,
    TriangleTraitExtMarker,
};
pub use multi_line_string::{MultiLineString, MultiLineStringTrait, MultiLineStringTraitExt};
pub use multi_point::{MultiPoint, MultiPointTrait, MultiPointTraitExt};
pub use multi_polygon::{MultiPolygon, MultiPolygonTrait, MultiPolygonTraitExt};
pub use point::{Point, PointTrait, PointTraitExt};
pub use polygon::{Polygon, PolygonTrait, PolygonTraitExt};
pub use rect::{Rect, RectTrait, RectTraitExt};
pub use triangle::{Triangle, TriangleTrait, TriangleTraitExt};
pub use unimplemented::{
    UnimplementedCoord, UnimplementedGeometryCollection, UnimplementedLine,
    UnimplementedLineString, UnimplementedMultiLineString, UnimplementedMultiPoint,
    UnimplementedMultiPolygon, UnimplementedPoint, UnimplementedPolygon, UnimplementedRect,
    UnimplementedTriangle,
};
