//! The tagged-union geometry, geometry collections, and their capabilities.
use crate::coord::Coord;
use crate::line::{Line, LineTrait};
use crate::line_string::{LineString, LineStringTrait};
use crate::marker::{
    GeoTraitExtWithTypeMarker, GeometryCollectionTraitExtMarker, GeometryTraitExtMarker,
};
use crate::multi_line_string::{MultiLineString, MultiLineStringTrait};
use crate::multi_point::{MultiPoint, MultiPointTrait};
use crate::multi_polygon::{MultiPolygon, MultiPolygonTrait};
use crate::point::{Point, PointTrait};
use crate::polygon::{Polygon, PolygonTrait, PolygonView};
use crate::rect::{Rect, RectTrait};
use crate::triangle::{Triangle, TriangleTrait};
use vstd::prelude::*;

verus! {

/// What a geometry of any kind holds, kind by kind.
pub enum GeometryView<T> {
    Point(Option<Coord<T>>),
    LineString(Seq<Coord<T>>),
    Polygon(PolygonView<T>),
    MultiPoint(Seq<Option<Coord<T>>>),
    MultiLineString(Seq<Seq<Coord<T>>>),
    MultiPolygon(Seq<PolygonView<T>>),
    GeometryCollection(Seq<GeometryView<T>>),
    Rect(Rect<T>),
    Triangle(Triangle<T>),
    Line(Line<T>),
}

/// Read access to a collection of geometries: a count and indexed access.
pub trait GeometryCollectionTrait {
    /// The component type.
    type T;

    /// The type of its members.
    type GeometryType;

    /// Its members, in order.
    spec fn geometries_view(&self) -> Seq<Self::GeometryType>;

    /// The number of members.
    fn num_geometries(&self) -> (r: usize)
        ensures
            r == self.geometries_view().len(),
    ;

    /// The member at index `i`, which must be in range.
    fn geometry_unchecked(&self, i: usize) -> (r: &Self::GeometryType)
        requires
            i < self.geometries_view().len(),
        ensures
            *r == self.geometries_view()[i as int],
    ;

    /// The member at index `i`, or `None` when `i` is out of range.
    fn geometry(&self, i: usize) -> (r: Option<&Self::GeometryType>)
        ensures
            i < self.geometries_view().len() ==> r == Some(&self.geometries_view()[i as int]),
            i >= self.geometries_view().len() ==> r is None,
    {
        if i >= self.num_geometries() {
            None
        } else {
            Some(self.geometry_unchecked(i))
        }
    }
}

/// The case a geometry holds, with a reference to it.
pub enum GeometryType<'a, P, LS, Y, MP, ML, MY, GC, R, TT, L> {
    Point(&'a P),
    LineString(&'a LS),
    Polygon(&'a Y),
    MultiPoint(&'a MP),
    MultiLineString(&'a ML),
    MultiPolygon(&'a MY),
    GeometryCollection(&'a GC),
    Rect(&'a R),
    Triangle(&'a TT),
    Line(&'a L),
}

/// Read access to a geometry of any kind: which case it holds.
///
/// The members of a collection held by a geometry are geometries of the
/// same type.
pub trait GeometryTrait: Sized {
    /// The component type.
    type T;

    type PointType: PointTrait<T = Self::T>;

    type LineStringType: LineStringTrait<T = Self::T>;

    type PolygonType: PolygonTrait<T = Self::T>;

    type MultiPointType: MultiPointTrait<T = Self::T>;

    type MultiLineStringType: MultiLineStringTrait<T = Self::T>;

    type MultiPolygonType: MultiPolygonTrait<T = Self::T>;

    type GeometryCollectionType: GeometryCollectionTrait<T = Self::T, GeometryType = Self>;

    type RectType: RectTrait<T = Self::T>;

    type TriangleType: TriangleTrait<T = Self::T>;

    type LineType: LineTrait<T = Self::T>;

    /// What this geometry holds.
    spec fn geometry_view(&self) -> GeometryView<Self::T>;

    /// The case this geometry holds.
    fn as_type(&self) -> (r: GeometryType<
        '_,
        Self::PointType,
        Self::LineStringType,
        Self::PolygonType,
        Self::MultiPointType,
        Self::MultiLineStringType,
        Self::MultiPolygonType,
        Self::GeometryCollectionType,
        Self::RectType,
        Self::TriangleType,
        Self::LineType,
    >)
        ensures
            match r {
                GeometryType::Point(g) => self.geometry_view() == GeometryView::Point(
                    g.point_view(),
                ),
                GeometryType::LineString(g) => self.geometry_view() == GeometryView::LineString(
                    g.coords_view(),
                ),
                GeometryType::Polygon(g) => self.geometry_view() == GeometryView::Polygon(
                    g.polygon_view(),
                ),
                GeometryType::MultiPoint(g) => self.geometry_view() == GeometryView::MultiPoint(
                    g.points_view(),
                ),
                GeometryType::MultiLineString(g) => self.geometry_view()
                    == GeometryView::MultiLineString(g.line_strings_view()),
                GeometryType::MultiPolygon(g) => self.geometry_view()
                    == GeometryView::MultiPolygon(g.polygons_view()),
                GeometryType::GeometryCollection(g) => self.geometry_view()
                    == GeometryView::GeometryCollection(
                    g.geometries_view().map_values(|m: Self| m.geometry_view()),
                ),
                GeometryType::Rect(g) => self.geometry_view() == GeometryView::Rect(g.rect_view()),
                GeometryType::Triangle(g) => self.geometry_view() == GeometryView::Triangle(
                    g.triangle_view(),
                ),
                GeometryType::Line(g) => self.geometry_view() == GeometryView::Line(g.line_view()),
            },
    ;
}

/// A geometry capability that carries the geometry tag.
pub trait GeometryTraitExt<T>: GeometryTrait<T = T> + GeoTraitExtWithTypeMarker<
    Marker = GeometryTraitExtMarker,
> {

}

/// A geometry-collection capability that carries the geometry-collection
/// tag.
pub trait GeometryCollectionTraitExt<T>: GeometryCollectionTrait<
    T = T,
> + GeoTraitExtWithTypeMarker<Marker = GeometryCollectionTraitExtMarker> {

}

/// A geometry of any kind.
#[derive(Debug, PartialEq)]
pub enum Geometry<T> {
    Point(Point<T>),
    Line(Line<T>),
    LineString(LineString<T>),
    Polygon(Polygon<T>),
    MultiPoint(MultiPoint<T>),
    MultiLineString(MultiLineString<T>),
    MultiPolygon(MultiPolygon<T>),
    GeometryCollection(GeometryCollection<T>),
    Rect(Rect<T>),
    Triangle(Triangle<T>),
}

/// A collection of geometries of any kinds.
#[derive(Debug, PartialEq)]
pub struct GeometryCollection<T>(pub Vec<Geometry<T>>);

impl<T> GeometryCollection<T> {
    /// The collection of `geometries`, in order.
    pub fn new_from(geometries: Vec<Geometry<T>>) -> (r: GeometryCollection<T>)
        ensures
            r.0@ == geometries@,
    {
        GeometryCollection(geometries)
    }
}

/// What `g` holds.
pub open spec fn view_of_geometry<T: Copy>(g: Geometry<T>) -> GeometryView<T>
    decreases g,
{
    match g {
        Geometry::Point(p) => GeometryView::Point(p.0),
        Geometry::Line(l) => GeometryView::Line(l),
        Geometry::LineString(ls) => GeometryView::LineString(ls.0@),
        Geometry::Polygon(p) => GeometryView::Polygon(p.polygon_view()),
        Geometry::MultiPoint(mp) => GeometryView::MultiPoint(mp.points_view()),
        Geometry::MultiLineString(ml) => GeometryView::MultiLineString(ml.line_strings_view()),
        Geometry::MultiPolygon(mp) => GeometryView::MultiPolygon(mp.polygons_view()),
        Geometry::GeometryCollection(gc) => GeometryView::GeometryCollection(
            views_of_geometries(gc.0@, gc.0@.len() as int),
        ),
        Geometry::Rect(r) => GeometryView::Rect(r),
        Geometry::Triangle(t) => GeometryView::Triangle(t),
    }
}

/// What the first `n` members of `s` hold.
pub open spec fn views_of_geometries<T: Copy>(s: Seq<Geometry<T>>, n: int) -> Seq<GeometryView<T>>
    decreases s, n,
{
    if n <= 0 || n > s.len() {
        Seq::empty()
    } else {
        views_of_geometries(s, n - 1).push(view_of_geometry(s[n - 1]))
    }
}

} // verus!

verus! {

/// `views_of_geometries` views each of the first `n` members in turn.
pub proof fn lemma_views_of_geometries<T: Copy>(s: Seq<Geometry<T>>, n: int)
    requires
        0 <= n <= s.len(),
    ensures
        views_of_geometries(s, n) == s.subrange(0, n).map_values(
            |g: Geometry<T>| view_of_geometry(g),
        ),
    decreases n,
{
    if n > 0 {
        lemma_views_of_geometries(s, n - 1);
    }
    assert(views_of_geometries(s, n) =~= s.subrange(0, n).map_values(
        |g: Geometry<T>| view_of_geometry(g),
    ));
}

impl<T: Copy> GeometryCollectionTrait for GeometryCollection<T> {
    type T = T;

    type GeometryType = Geometry<T>;

    open spec fn geometries_view(&self) -> Seq<Geometry<T>> {
        self.0@
    }

    fn num_geometries(&self) -> (r: usize) {
        self.0.len()
    }

    fn geometry_unchecked(&self, i: usize) -> (r: &Geometry<T>) {
        &self.0[i]
    }
}

impl<T> GeoTraitExtWithTypeMarker for GeometryCollection<T> {
    type Marker = GeometryCollectionTraitExtMarker;
}

impl<T: Copy> GeometryCollectionTraitExt<T> for GeometryCollection<T> {

}

impl<T: Copy> GeometryTrait for Geometry<T> {
    type T = T;

    type PointType = Point<T>;

    type LineStringType = LineString<T>;

    type PolygonType = Polygon<T>;

    type MultiPointType = MultiPoint<T>;

    type MultiLineStringType = MultiLineString<T>;

    type MultiPolygonType = MultiPolygon<T>;

    type GeometryCollectionType = GeometryCollection<T>;

    type RectType = Rect<T>;

    type TriangleType = Triangle<T>;

    type LineType = Line<T>;

    open spec fn geometry_view(&self) -> GeometryView<T> {
        view_of_geometry(*self)
    }

    fn as_type(&self) -> (r: GeometryType<
        '_,
        Point<T>,
        LineString<T>,
        Polygon<T>,
        MultiPoint<T>,
        MultiLineString<T>,
        MultiPolygon<T>,
        GeometryCollection<T>,
        Rect<T>,
        Triangle<T>,
        Line<T>,
    >) {
        match self {
            Geometry::Point(g) => GeometryType::Point(g),
            Geometry::Line(g) => GeometryType::Line(g),
            Geometry::LineString(g) => GeometryType::LineString(g),
            Geometry::Polygon(g) => GeometryType::Polygon(g),
            Geometry::MultiPoint(g) => GeometryType::MultiPoint(g),
            Geometry::MultiLineString(g) => GeometryType::MultiLineString(g),
            Geometry::MultiPolygon(g) => GeometryType::MultiPolygon(g),
            Geometry::GeometryCollection(g) => {
                proof {
                    lemma_views_of_geometries(g.0@, g.0@.len() as int);
                    assert(g.0@.subrange(0, g.0@.len() as int) =~= g.0@);
                    assert(g.geometries_view().map_values(|m: Geometry<T>| m.geometry_view())
                        =~= g.0@.map_values(|m: Geometry<T>| view_of_geometry(m)));
                }
                GeometryType::GeometryCollection(g)
            },
            Geometry::Rect(g) => GeometryType::Rect(g),
            Geometry::Triangle(g) => GeometryType::Triangle(g),
        }
    }
}

impl<T> GeoTraitExtWithTypeMarker for Geometry<T> {
    type Marker = GeometryTraitExtMarker;
}

impl<T: Copy> GeometryTraitExt<T> for Geometry<T> {

}

} // verus!
