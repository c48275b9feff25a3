//! Placeholder shape types that have no values.
//!
//! A type that implements `GeometryTrait` must name a type for every kind,
//! also for kinds it never holds. These types serve there: their invariant
//! is false, so no value of them is ever built, and their methods are never
//! reached.
use crate::coord::{Coord, CoordTrait, CoordTraitExt};
use crate::geometry::{GeometryCollectionTrait, GeometryCollectionTraitExt};
use crate::line::{Line, LineTrait, LineTraitExt};
use crate::line_string::{LineStringTrait, LineStringTraitExt};
use crate::marker::{
    CoordTraitExtMarker, GeoTraitExtWithTypeMarker, GeometryCollectionTraitExtMarker,
    LineStringTraitExtMarker, LineTraitExtMarker, MultiLineStringTraitExtMarker,
    MultiPointTraitExtMarker, MultiPolygonTraitExtMarker, PointTraitExtMarker,
    PolygonTraitExtMarker, RectTraitExtMarker, TriangleTraitExtMarker,
};
use crate::multi_line_string::{MultiLineStringTrait, MultiLineStringTraitExt};
use crate::multi_point::{MultiPointTrait, MultiPointTraitExt};
use crate::multi_polygon::{MultiPolygonTrait, MultiPolygonTraitExt};
use crate::point::{PointTrait, PointTraitExt};
use crate::polygon::{PolygonTrait, PolygonTraitExt, PolygonView};
use crate::rect::{Rect, RectTrait, RectTraitExt};
use crate::triangle::{Triangle, TriangleTrait, TriangleTraitExt};
use core::marker::PhantomData;
use vstd::prelude::*;

verus! {

/// A coordinate type with no values.
pub struct UnimplementedCoord<T>(PhantomData<T>);

impl<T> UnimplementedCoord<T> {
    #[verifier::type_invariant]
    spec fn never(&self) -> bool {
        false
    }
}

impl<T> CoordTrait for UnimplementedCoord<T> {
    type T = T;

    open spec fn coord_view(&self) -> Coord<T> {
        arbitrary()
    }

    fn x(&self) -> (r: T) {
        proof {
            use_type_invariant(self);
        }
        unreached()
    }

    fn y(&self) -> (r: T) {
        proof {
            use_type_invariant(self);
        }
        unreached()
    }
}

impl<T> GeoTraitExtWithTypeMarker for UnimplementedCoord<T> {
    type Marker = CoordTraitExtMarker;
}

impl<T> CoordTraitExt<T> for UnimplementedCoord<T> {

}

/// A point type with no values.
pub struct UnimplementedPoint<T>(PhantomData<T>);

impl<T> UnimplementedPoint<T> {
    #[verifier::type_invariant]
    spec fn never(&self) -> bool {
        false
    }
}

impl<T> PointTrait for UnimplementedPoint<T> {
    type T = T;

    type CoordType = UnimplementedCoord<T>;

    open spec fn point_view(&self) -> Option<Coord<T>> {
        arbitrary()
    }

    fn coord(&self) -> (r: Option<UnimplementedCoord<T>>) {
        proof {
            use_type_invariant(self);
        }
        unreached()
    }
}

impl<T> GeoTraitExtWithTypeMarker for UnimplementedPoint<T> {
    type Marker = PointTraitExtMarker;
}

impl<T> PointTraitExt<T> for UnimplementedPoint<T> {

}

/// A line type with no values.
pub struct UnimplementedLine<T>(PhantomData<T>);

impl<T> UnimplementedLine<T> {
    #[verifier::type_invariant]
    spec fn never(&self) -> bool {
        false
    }
}

impl<T> LineTrait for UnimplementedLine<T> {
    type T = T;

    type CoordType = UnimplementedCoord<T>;

    open spec fn line_view(&self) -> Line<T> {
        arbitrary()
    }

    fn start(&self) -> (r: UnimplementedCoord<T>) {
        proof {
            use_type_invariant(self);
        }
        unreached()
    }

    fn end(&self) -> (r: UnimplementedCoord<T>) {
        proof {
            use_type_invariant(self);
        }
        unreached()
    }
}

impl<T> GeoTraitExtWithTypeMarker for UnimplementedLine<T> {
    type Marker = LineTraitExtMarker;
}

impl<T> LineTraitExt<T> for UnimplementedLine<T> {

}

/// A line-string type with no values.
pub struct UnimplementedLineString<T>(PhantomData<T>);

impl<T> UnimplementedLineString<T> {
    #[verifier::type_invariant]
    spec fn never(&self) -> bool {
        false
    }
}

impl<T> LineStringTrait for UnimplementedLineString<T> {
    type T = T;

    type CoordType = UnimplementedCoord<T>;

    open spec fn coords_view(&self) -> Seq<Coord<T>> {
        arbitrary()
    }

    fn num_coords(&self) -> (r: usize) {
        proof {
            use_type_invariant(self);
        }
        unreached()
    }

    fn coord_unchecked(&self, i: usize) -> (r: UnimplementedCoord<T>) {
        proof {
            use_type_invariant(self);
        }
        unreached()
    }
}

impl<T> GeoTraitExtWithTypeMarker for UnimplementedLineString<T> {
    type Marker = LineStringTraitExtMarker;
}

impl<T: PartialEq> LineStringTraitExt<T> for UnimplementedLineString<T> {

}

/// A polygon type with no values.
pub struct UnimplementedPolygon<T>(PhantomData<T>);

impl<T> UnimplementedPolygon<T> {
    #[verifier::type_invariant]
    spec fn never(&self) -> bool {
        false
    }
}

impl<T> PolygonTrait for UnimplementedPolygon<T> {
    type T = T;

    type RingType = UnimplementedLineString<T>;

    open spec fn polygon_view(&self) -> PolygonView<T> {
        arbitrary()
    }

    fn exterior(&self) -> (r: Option<&UnimplementedLineString<T>>) {
        proof {
            use_type_invariant(self);
        }
        unreached()
    }

    fn num_interiors(&self) -> (r: usize) {
        proof {
            use_type_invariant(self);
        }
        unreached()
    }

    fn interior_unchecked(&self, i: usize) -> (r: &UnimplementedLineString<T>) {
        proof {
            use_type_invariant(self);
        }
        unreached()
    }
}

impl<T> GeoTraitExtWithTypeMarker for UnimplementedPolygon<T> {
    type Marker = PolygonTraitExtMarker;
}

impl<T> PolygonTraitExt<T> for UnimplementedPolygon<T> {

}

/// A multi-point type with no values.
pub struct UnimplementedMultiPoint<T>(PhantomData<T>);

impl<T> UnimplementedMultiPoint<T> {
    #[verifier::type_invariant]
    spec fn never(&self) -> bool {
        false
    }
}

impl<T> MultiPointTrait for UnimplementedMultiPoint<T> {
    type T = T;

    type PointType = UnimplementedPoint<T>;

    open spec fn points_view(&self) -> Seq<Option<Coord<T>>> {
        arbitrary()
    }

    fn num_points(&self) -> (r: usize) {
        proof {
            use_type_invariant(self);
        }
        unreached()
    }

    fn point_unchecked(&self, i: usize) -> (r: &UnimplementedPoint<T>) {
        proof {
            use_type_invariant(self);
        }
        unreached()
    }
}

impl<T> GeoTraitExtWithTypeMarker for UnimplementedMultiPoint<T> {
    type Marker = MultiPointTraitExtMarker;
}

impl<T> MultiPointTraitExt<T> for UnimplementedMultiPoint<T> {

}

/// A multi-line-string type with no values.
pub struct UnimplementedMultiLineString<T>(PhantomData<T>);

impl<T> UnimplementedMultiLineString<T> {
    #[verifier::type_invariant]
    spec fn never(&self) -> bool {
        false
    }
}

impl<T> MultiLineStringTrait for UnimplementedMultiLineString<T> {
    type T = T;

    type LineStringType = UnimplementedLineString<T>;

    open spec fn line_strings_view(&self) -> Seq<Seq<Coord<T>>> {
        arbitrary()
    }

    fn num_line_strings(&self) -> (r: usize) {
        proof {
            use_type_invariant(self);
        }
        unreached()
    }

    fn line_string_unchecked(&self, i: usize) -> (r: &UnimplementedLineString<T>) {
        proof {
            use_type_invariant(self);
        }
        unreached()
    }
}

impl<T> GeoTraitExtWithTypeMarker for UnimplementedMultiLineString<T> {
    type Marker = MultiLineStringTraitExtMarker;
}

impl<T> MultiLineStringTraitExt<T> for UnimplementedMultiLineString<T> {

}

/// A multi-polygon type with no values.
pub struct UnimplementedMultiPolygon<T>(PhantomData<T>);

impl<T> UnimplementedMultiPolygon<T> {
    #[verifier::type_invariant]
    spec fn never(&self) -> bool {
        false
    }
}

impl<T> MultiPolygonTrait for UnimplementedMultiPolygon<T> {
    type T = T;

    type PolygonType = UnimplementedPolygon<T>;

    open spec fn polygons_view(&self) -> Seq<PolygonView<T>> {
        arbitrary()
    }

    fn num_polygons(&self) -> (r: usize) {
        proof {
            use_type_invariant(self);
        }
        unreached()
    }

    fn polygon_unchecked(&self, i: usize) -> (r: &UnimplementedPolygon<T>) {
        proof {
            use_type_invariant(self);
        }
        unreached()
    }
}

impl<T> GeoTraitExtWithTypeMarker for UnimplementedMultiPolygon<T> {
    type Marker = MultiPolygonTraitExtMarker;
}

impl<T> MultiPolygonTraitExt<T> for UnimplementedMultiPolygon<T> {

}

/// A rectangle type with no values.
pub struct UnimplementedRect<T>(PhantomData<T>);

impl<T> UnimplementedRect<T> {
    #[verifier::type_invariant]
    spec fn never(&self) -> bool {
        false
    }
}

impl<T> RectTrait for UnimplementedRect<T> {
    type T = T;

    type CoordType = UnimplementedCoord<T>;

    open spec fn rect_view(&self) -> Rect<T> {
        arbitrary()
    }

    fn min(&self) -> (r: UnimplementedCoord<T>) {
        proof {
            use_type_invariant(self);
        }
        unreached()
    }

    fn max(&self) -> (r: UnimplementedCoord<T>) {
        proof {
            use_type_invariant(self);
        }
        unreached()
    }
}

impl<T> GeoTraitExtWithTypeMarker for UnimplementedRect<T> {
    type Marker = RectTraitExtMarker;
}

impl<T: PartialOrd + Copy> RectTraitExt<T> for UnimplementedRect<T> {

}

/// A triangle type with no values.
pub struct UnimplementedTriangle<T>(PhantomData<T>);

impl<T> UnimplementedTriangle<T> {
    #[verifier::type_invariant]
    spec fn never(&self) -> bool {
        false
    }
}

impl<T> TriangleTrait for UnimplementedTriangle<T> {
    type T = T;

    type CoordType = UnimplementedCoord<T>;

    open spec fn triangle_view(&self) -> Triangle<T> {
        arbitrary()
    }

    fn first(&self) -> (r: UnimplementedCoord<T>) {
        proof {
            use_type_invariant(self);
        }
        unreached()
    }

    fn second(&self) -> (r: UnimplementedCoord<T>) {
        proof {
            use_type_invariant(self);
        }
        unreached()
    }

    fn third(&self) -> (r: UnimplementedCoord<T>) {
        proof {
            use_type_invariant(self);
        }
        unreached()
    }
}

impl<T> GeoTraitExtWithTypeMarker for UnimplementedTriangle<T> {
    type Marker = TriangleTraitExtMarker;
}

impl<T: Copy> TriangleTraitExt<T> for UnimplementedTriangle<T> {

}

/// A geometry-collection type with no values, for members of type `G`.
pub struct UnimplementedGeometryCollection<T, G>(PhantomData<(T, G)>);

impl<T, G> UnimplementedGeometryCollection<T, G> {
    #[verifier::type_invariant]
    spec fn never(&self) -> bool {
        false
    }
}

impl<T, G> GeometryCollectionTrait for UnimplementedGeometryCollection<T, G> {
    type T = T;

    type GeometryType = G;

    open spec fn geometries_view(&self) -> Seq<G> {
        arbitrary()
    }

    fn num_geometries(&self) -> (r: usize) {
        proof {
            use_type_invariant(self);
        }
        unreached()
    }

    fn geometry_unchecked(&self, i: usize) -> (r: &G) {
        proof {
            use_type_invariant(self);
        }
        unreached()
    }
}

impl<T, G> GeoTraitExtWithTypeMarker for UnimplementedGeometryCollection<T, G> {
    type Marker = GeometryCollectionTraitExtMarker;
}

impl<T, G> GeometryCollectionTraitExt<T> for UnimplementedGeometryCollection<T, G> {

}

} // verus!
