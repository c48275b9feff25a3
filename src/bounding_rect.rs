//! The bounding rectangle of every shape kind.
//!
//! Each kind has one routine over its capability trait. `BoundingRectTrait`
//! is implemented once per (tag, capability) pair and calls that routine;
//! `BoundingRect` is implemented once for every shape type and follows the
//! shape's tag to the one implementation that fits.
//!
//! The contracts hold for every component type whose comparison Verus knows
//! (`obeys_partial_cmp_spec`), which covers the integer types.
use crate::bounds::{
    collection_bounds, coords_bounds, exterior_coords, exteriors_coords, extend_coords,
    geometry_bounds, lemma_extend_coords_concat, lemma_extend_coords_push, line_rect,
    members_bounds, merge_opt_spec, merge_spec, point_bounds, point_rect, polygon_bounds,
    present_coords, triangle_rect,
};
use crate::coord::{Coord, CoordTrait, CoordTraitExt};
use crate::geometry::{
    GeometryCollectionTrait, GeometryCollectionTraitExt, GeometryTrait, GeometryTraitExt,
    GeometryType, GeometryView,
};
use crate::line::{LineTrait, LineTraitExt};
use crate::line_string::{LineStringTrait, LineStringTraitExt};
use crate::marker::{
    CoordTraitExtMarker, GeoTraitExtWithTypeMarker, GeoTypeMarker,
    GeometryCollectionTraitExtMarker, GeometryTraitExtMarker, LineStringTraitExtMarker,
    LineTraitExtMarker, MultiLineStringTraitExtMarker, MultiPointTraitExtMarker,
    MultiPolygonTraitExtMarker, PointTraitExtMarker, PolygonTraitExtMarker, RectTraitExtMarker,
    TriangleTraitExtMarker,
};
use crate::multi_line_string::{MultiLineStringTrait, MultiLineStringTraitExt};
use crate::multi_point::{MultiPointTrait, MultiPointTraitExt};
use crate::multi_polygon::{MultiPolygonTrait, MultiPolygonTraitExt};
use crate::order::{partial_max, partial_min};
use crate::point::{PointTrait, PointTraitExt};
use crate::polygon::{PolygonTrait, PolygonTraitExt, PolygonView};
use crate::rect::{Rect, RectTrait, RectTraitExt};
use crate::triangle::{TriangleTrait, TriangleTraitExt};
use vstd::prelude::*;
use vstd::std_specs::cmp::PartialOrdSpec;

verus! {

/// A new rectangle that encompasses the two given ones.
pub fn bounding_rect_merge<T: PartialOrd + Copy>(a: Rect<T>, b: Rect<T>) -> (r: Rect<T>)
    ensures
        T::obeys_partial_cmp_spec() ==> r == merge_spec(a, b),
{
    Rect {
        min: Coord { x: partial_min(a.min.x, b.min.x), y: partial_min(a.min.y, b.min.y) },
        max: Coord { x: partial_max(a.max.x, b.max.x), y: partial_max(a.max.y, b.max.y) },
    }
}

/// Two rectangles that may be absent, merged: an absent one leaves the other.
fn merge_optional<T: PartialOrd + Copy>(a: Option<Rect<T>>, b: Option<Rect<T>>) -> (r: Option<
    Rect<T>,
>)
    ensures
        T::obeys_partial_cmp_spec() ==> r == merge_opt_spec(a, b),
{
    match (a, b) {
        (None, None) => None,
        (Some(r), None) => Some(r),
        (None, Some(r)) => Some(r),
        (Some(r1), Some(r2)) => Some(bounding_rect_merge(r1, r2)),
    }
}

/// `acc` grown by every coordinate of `ls`, in order.
fn extend_by_line_string<T: PartialOrd + Copy, LS: LineStringTrait<T = T>>(
    acc: Option<Rect<T>>,
    ls: &LS,
) -> (r: Option<Rect<T>>)
    ensures
        T::obeys_partial_cmp_spec() ==> r == extend_coords(acc, ls.coords_view()),
{
    let n = ls.num_coords();
    let mut out = acc;
    let mut i: usize = 0;
    while i < n
        invariant
            n == ls.coords_view().len(),
            i <= n,
            T::obeys_partial_cmp_spec() ==> out == extend_coords(
                acc,
                ls.coords_view().subrange(0, i as int),
            ),
        decreases n - i,
    {
        let c = ls.coord_unchecked(i).to_coord();
        out = merge_optional(Some(Rect { min: c, max: c }), out);
        proof {
            assert(ls.coords_view().subrange(0, i + 1) =~= ls.coords_view().subrange(
                0,
                i as int,
            ).push(c));
            lemma_extend_coords_push(acc, ls.coords_view().subrange(0, i as int), c);
        }
        i += 1;
    }
    proof {
        assert(ls.coords_view().subrange(0, n as int) =~= ls.coords_view());
    }
    out
}

/// The bounding rectangle of a point, absent when it is empty.
fn point_bounding_rect<T: Copy, P: PointTrait<T = T>>(p: &P) -> (r: Option<Rect<T>>)
    ensures
        r == point_bounds(p.point_view()),
{
    match p.coord() {
        Some(c) => {
            let c = c.to_coord();
            Some(Rect { min: c, max: c })
        },
        None => None,
    }
}

/// The bounding rectangle of a segment, whatever the order of its ends.
fn line_bounding_rect<T: PartialOrd + Copy, L: LineTrait<T = T>>(l: &L) -> (r: Rect<T>)
    ensures
        T::obeys_partial_cmp_spec() ==> r == line_rect(l.line_view()),
{
    Rect::new(l.start().to_coord(), l.end().to_coord())
}

/// The bounding rectangle of a triangle.
fn triangle_bounding_rect<T: PartialOrd + Copy, TT: TriangleTrait<T = T>>(t: &TT) -> (r: Rect<T>)
    ensures
        T::obeys_partial_cmp_spec() ==> r == triangle_rect(t.triangle_view()),
{
    let a = t.first().to_coord();
    let b = t.second().to_coord();
    let c = t.third().to_coord();
    let ab = bounding_rect_merge(Rect { min: b, max: b }, Rect { min: a, max: a });
    bounding_rect_merge(Rect { min: c, max: c }, ab)
}

/// A rectangle, as a plain `Rect`.
fn rect_bounding_rect<T: Copy, R: RectTrait<T = T>>(r: &R) -> (out: Rect<T>)
    ensures
        out == r.rect_view(),
{
    Rect { min: r.min().to_coord(), max: r.max().to_coord() }
}

/// The bounding rectangle of a polygon: that of its exterior ring.
fn polygon_bounding_rect<T: PartialOrd + Copy, P: PolygonTrait<T = T>>(p: &P) -> (r: Option<
    Rect<T>,
>)
    ensures
        T::obeys_partial_cmp_spec() ==> r == polygon_bounds(p.polygon_view()),
{
    match p.exterior() {
        Some(ring) => extend_by_line_string(None, ring),
        None => None,
    }
}

/// The bounding rectangle of the points of a multi-point that are not empty.
fn multi_point_bounding_rect<T: PartialOrd + Copy, MP: MultiPointTrait<T = T>>(mp: &MP) -> (r:
    Option<Rect<T>>)
    ensures
        T::obeys_partial_cmp_spec() ==> r == coords_bounds(present_coords(mp.points_view())),
{
    let n = mp.num_points();
    let mut out: Option<Rect<T>> = None;
    let mut i: usize = 0;
    while i < n
        invariant
            n == mp.points_view().len(),
            i <= n,
            T::obeys_partial_cmp_spec() ==> out == coords_bounds(
                present_coords(mp.points_view().subrange(0, i as int)),
            ),
        decreases n - i,
    {
        let ghost before = mp.points_view().subrange(0, i as int);
        proof {
            assert(mp.points_view().subrange(0, i + 1).drop_last() =~= before);
        }
        match mp.point_unchecked(i).coord() {
            Some(c) => {
                let c = c.to_coord();
                out = merge_optional(Some(Rect { min: c, max: c }), out);
                proof {
                    lemma_extend_coords_push(None, present_coords(before), c);
                }
            },
            None => {},
        }
        i += 1;
    }
    proof {
        assert(mp.points_view().subrange(0, n as int) =~= mp.points_view());
    }
    out
}

/// The bounding rectangle of every coordinate of every line string.
fn multi_line_string_bounding_rect<T: PartialOrd + Copy, ML: MultiLineStringTrait<T = T>>(
    ml: &ML,
) -> (r: Option<Rect<T>>)
    ensures
        T::obeys_partial_cmp_spec() ==> r == coords_bounds(ml.line_strings_view().flatten()),
{
    let n = ml.num_line_strings();
    let mut out: Option<Rect<T>> = None;
    let mut i: usize = 0;
    while i < n
        invariant
            n == ml.line_strings_view().len(),
            i <= n,
            T::obeys_partial_cmp_spec() ==> out == coords_bounds(
                ml.line_strings_view().subrange(0, i as int).flatten(),
            ),
        decreases n - i,
    {
        let ghost before = ml.line_strings_view().subrange(0, i as int);
        let ls = ml.line_string_unchecked(i);
        out = extend_by_line_string(out, ls);
        proof {
            assert(ml.line_strings_view().subrange(0, i + 1) =~= before.push(ls.coords_view()));
            before.lemma_flatten_push(ls.coords_view());
            lemma_extend_coords_concat(None, before.flatten(), ls.coords_view());
        }
        i += 1;
    }
    proof {
        assert(ml.line_strings_view().subrange(0, n as int) =~= ml.line_strings_view());
    }
    out
}

/// The bounding rectangle of the exterior rings of every polygon.
fn multi_polygon_bounding_rect<T: PartialOrd + Copy, MY: MultiPolygonTrait<T = T>>(mp: &MY) -> (r:
    Option<Rect<T>>)
    ensures
        T::obeys_partial_cmp_spec() ==> r == coords_bounds(exteriors_coords(mp.polygons_view())),
{
    let n = mp.num_polygons();
    let mut out: Option<Rect<T>> = None;
    let mut i: usize = 0;
    while i < n
        invariant
            n == mp.polygons_view().len(),
            i <= n,
            T::obeys_partial_cmp_spec() ==> out == coords_bounds(
                exteriors_coords(mp.polygons_view().subrange(0, i as int)),
            ),
        decreases n - i,
    {
        let ghost before = mp.polygons_view().subrange(0, i as int);
        let p = mp.polygon_unchecked(i);
        proof {
            let rings = before.map_values(|q: PolygonView<T>| exterior_coords(q));
            assert(mp.polygons_view().subrange(0, i + 1).map_values(
                |q: PolygonView<T>| exterior_coords(q),
            ) =~= rings.push(exterior_coords(p.polygon_view())));
            rings.lemma_flatten_push(exterior_coords(p.polygon_view()));
            lemma_extend_coords_concat(None, rings.flatten(), exterior_coords(p.polygon_view()));
        }
        match p.exterior() {
            Some(ring) => {
                out = extend_by_line_string(out, ring);
            },
            None => {
                proof {
                    let rings = before.map_values(|q: PolygonView<T>| exterior_coords(q));
                    assert(rings.flatten() + exterior_coords(p.polygon_view()) =~= rings.flatten());
                }
            },
        }
        i += 1;
    }
    proof {
        assert(mp.polygons_view().subrange(0, n as int) =~= mp.polygons_view());
    }
    out
}

/// The bounding rectangle of a geometry, by the rule of the case it holds.
///
/// With `collection_bounding_rect` this recurses into nested collections:
/// a collection is entered at the same view and a lower second measure,
/// and each member is visited at its own, smaller view.
fn geometry_bounding_rect<T: PartialOrd + Copy, G: GeometryTrait<T = T>>(g: &G) -> (r: Option<
    Rect<T>,
>)
    ensures
        T::obeys_partial_cmp_spec() ==> r == geometry_bounds(g.geometry_view()),
    decreases g.geometry_view(), 1nat,
{
    match g.as_type() {
        GeometryType::Point(p) => point_bounding_rect(p),
        GeometryType::LineString(ls) => extend_by_line_string(None, ls),
        GeometryType::Polygon(p) => polygon_bounding_rect(p),
        GeometryType::MultiPoint(mp) => multi_point_bounding_rect(mp),
        GeometryType::MultiLineString(ml) => multi_line_string_bounding_rect(ml),
        GeometryType::MultiPolygon(mp) => multi_polygon_bounding_rect(mp),
        GeometryType::GeometryCollection(gc) => collection_bounding_rect(
            gc,
            Ghost(gc.geometries_view().map_values(|m: G| m.geometry_view())),
        ),
        GeometryType::Rect(r) => Some(rect_bounding_rect(r)),
        GeometryType::Triangle(t) => Some(triangle_bounding_rect(t)),
        GeometryType::Line(l) => Some(line_bounding_rect(l)),
    }
}

/// The bounding rectangles of the members of a collection, merged from left
/// to right; absent when no member has one.
fn collection_bounding_rect<
    T: PartialOrd + Copy,
    GC: GeometryCollectionTrait<T = T, GeometryType = G>,
    G: GeometryTrait<T = T>,
>(gc: &GC, Ghost(views): Ghost<Seq<GeometryView<T>>>) -> (r: Option<Rect<T>>)
    requires
        views == gc.geometries_view().map_values(|m: G| m.geometry_view()),
    ensures
        T::obeys_partial_cmp_spec() ==> r == collection_bounds(views),
    decreases GeometryView::GeometryCollection(views), 0nat,
{
    let n = gc.num_geometries();
    let mut out: Option<Rect<T>> = None;
    let mut i: usize = 0;
    while i < n
        invariant
            n == gc.geometries_view().len(),
            views == gc.geometries_view().map_values(|m: G| m.geometry_view()),
            i <= n,
            T::obeys_partial_cmp_spec() ==> out == members_bounds(views, i as int),
        decreases n - i,
    {
        let m = gc.geometry_unchecked(i);
        proof {
            assert(m.geometry_view() == views[i as int]);
            broadcast use vstd::seq::axiom_seq_index_decreases;

            let whole = GeometryView::GeometryCollection(views);
            assert(decreases_to!(whole => whole->GeometryCollection_0));
            assert(decreases_to!(views => views[i as int]));
        }
        let b = geometry_bounding_rect(m);
        out = merge_optional(out, b);
        i += 1;
    }
    out
}

/// The bounding-rectangle rule of one shape kind, chosen by the tag `M`.
pub trait BoundingRectTrait<T: PartialOrd, M: GeoTypeMarker> {
    /// `Rect<T>` for kinds that are never empty, `Option<Rect<T>>` for the
    /// others.
    type Output;

    /// The bounding rectangle of this shape.
    spec fn bounding_rect_spec(&self) -> Self::Output;

    /// Return the bounding rectangle of this shape.
    fn bounding_rect_trait(&self) -> (r: Self::Output)
        ensures
            T::obeys_partial_cmp_spec() ==> r == self.bounding_rect_spec(),
    ;
}

/// The bounding rectangle of a shape.
pub trait BoundingRect<T: PartialOrd> {
    /// `Rect<T>` for kinds that are never empty, `Option<Rect<T>>` for the
    /// others.
    type Output;

    /// The bounding rectangle of this shape.
    spec fn bounding_rect_spec(&self) -> Self::Output;

    /// Return the bounding rectangle of a geometry.
    fn bounding_rect(&self) -> (r: Self::Output)
        ensures
            T::obeys_partial_cmp_spec() ==> r == self.bounding_rect_spec(),
    ;
}

/// Every shape type reaches the rule of the kind its tag names.
impl<T: PartialOrd, G: GeoTraitExtWithTypeMarker + BoundingRectTrait<T, G::Marker>> BoundingRect<
    T,
> for G {
    type Output = <G as BoundingRectTrait<T, G::Marker>>::Output;

    open spec fn bounding_rect_spec(&self) -> Self::Output {
        <G as BoundingRectTrait<T, G::Marker>>::bounding_rect_spec(self)
    }

    fn bounding_rect(&self) -> (r: Self::Output) {
        self.bounding_rect_trait()
    }
}

/// A coordinate is its own degenerate rectangle.
impl<T: PartialOrd + Copy, C: CoordTraitExt<T>> BoundingRectTrait<T, CoordTraitExtMarker> for C {
    type Output = Rect<T>;

    open spec fn bounding_rect_spec(&self) -> Rect<T> {
        point_rect(self.coord_view())
    }

    fn bounding_rect_trait(&self) -> (r: Rect<T>) {
        let c = self.to_coord();
        Rect { min: c, max: c }
    }
}

/// A point bounds itself as a degenerate rectangle; an empty point has no
/// bounding rectangle, as every other empty shape.
impl<T: PartialOrd + Copy, P: PointTraitExt<T>> BoundingRectTrait<T, PointTraitExtMarker> for P {
    type Output = Option<Rect<T>>;

    open spec fn bounding_rect_spec(&self) -> Option<Rect<T>> {
        point_bounds(self.point_view())
    }

    fn bounding_rect_trait(&self) -> (r: Option<Rect<T>>) {
        point_bounding_rect(self)
    }
}

/// A segment is bounded by its two ends.
impl<T: PartialOrd + Copy, L: LineTraitExt<T>> BoundingRectTrait<T, LineTraitExtMarker> for L {
    type Output = Rect<T>;

    open spec fn bounding_rect_spec(&self) -> Rect<T> {
        line_rect(self.line_view())
    }

    fn bounding_rect_trait(&self) -> (r: Rect<T>) {
        line_bounding_rect(self)
    }
}

/// A line string is bounded by its coordinates; an empty one by nothing.
impl<T: PartialOrd + Copy, LS: LineStringTraitExt<T>> BoundingRectTrait<
    T,
    LineStringTraitExtMarker,
> for LS {
    type Output = Option<Rect<T>>;

    open spec fn bounding_rect_spec(&self) -> Option<Rect<T>> {
        coords_bounds(self.coords_view())
    }

    fn bounding_rect_trait(&self) -> (r: Option<Rect<T>>) {
        extend_by_line_string(None, self)
    }
}

/// A polygon is bounded by its exterior ring.
impl<T: PartialOrd + Copy, P: PolygonTraitExt<T>> BoundingRectTrait<T, PolygonTraitExtMarker> for P {
    type Output = Option<Rect<T>>;

    open spec fn bounding_rect_spec(&self) -> Option<Rect<T>> {
        polygon_bounds(self.polygon_view())
    }

    fn bounding_rect_trait(&self) -> (r: Option<Rect<T>>) {
        polygon_bounding_rect(self)
    }
}

/// A multi-point is bounded by the coordinates of its non-empty points.
impl<T: PartialOrd + Copy, MP: MultiPointTraitExt<T>> BoundingRectTrait<
    T,
    MultiPointTraitExtMarker,
> for MP {
    type Output = Option<Rect<T>>;

    open spec fn bounding_rect_spec(&self) -> Option<Rect<T>> {
        coords_bounds(present_coords(self.points_view()))
    }

    fn bounding_rect_trait(&self) -> (r: Option<Rect<T>>) {
        multi_point_bounding_rect(self)
    }
}

/// A multi-line-string is bounded by all the coordinates of its line strings.
impl<T: PartialOrd + Copy, ML: MultiLineStringTraitExt<T>> BoundingRectTrait<
    T,
    MultiLineStringTraitExtMarker,
> for ML {
    type Output = Option<Rect<T>>;

    open spec fn bounding_rect_spec(&self) -> Option<Rect<T>> {
        coords_bounds(self.line_strings_view().flatten())
    }

    fn bounding_rect_trait(&self) -> (r: Option<Rect<T>>) {
        multi_line_string_bounding_rect(self)
    }
}

/// A multi-polygon is bounded by the exterior rings of its polygons.
impl<T: PartialOrd + Copy, MY: MultiPolygonTraitExt<T>> BoundingRectTrait<
    T,
    MultiPolygonTraitExtMarker,
> for MY {
    type Output = Option<Rect<T>>;

    open spec fn bounding_rect_spec(&self) -> Option<Rect<T>> {
        coords_bounds(exteriors_coords(self.polygons_view()))
    }

    fn bounding_rect_trait(&self) -> (r: Option<Rect<T>>) {
        multi_polygon_bounding_rect(self)
    }
}

/// A triangle is bounded by its three vertices.
impl<T: PartialOrd + Copy, TT: TriangleTraitExt<T>> BoundingRectTrait<T, TriangleTraitExtMarker> for TT {
    type Output = Rect<T>;

    open spec fn bounding_rect_spec(&self) -> Rect<T> {
        triangle_rect(self.triangle_view())
    }

    fn bounding_rect_trait(&self) -> (r: Rect<T>) {
        triangle_bounding_rect(self)
    }
}

/// A rectangle bounds itself.
impl<T: PartialOrd + Copy, R: RectTraitExt<T>> BoundingRectTrait<T, RectTraitExtMarker> for R {
    type Output = Rect<T>;

    open spec fn bounding_rect_spec(&self) -> Rect<T> {
        self.rect_view()
    }

    fn bounding_rect_trait(&self) -> (r: Rect<T>) {
        rect_bounding_rect(self)
    }
}

/// A geometry is bounded by the rule of the case it holds.
impl<T: PartialOrd + Copy, G: GeometryTraitExt<T>> BoundingRectTrait<T, GeometryTraitExtMarker> for G {
    type Output = Option<Rect<T>>;

    open spec fn bounding_rect_spec(&self) -> Option<Rect<T>> {
        geometry_bounds(self.geometry_view())
    }

    fn bounding_rect_trait(&self) -> (r: Option<Rect<T>>) {
        geometry_bounding_rect(self)
    }
}

/// A collection merges the bounding rectangles of its members from left to
/// right; members without one are passed over.
impl<T: PartialOrd + Copy, GC: GeometryCollectionTraitExt<T>> BoundingRectTrait<
    T,
    GeometryCollectionTraitExtMarker,
> for GC where GC::GeometryType: GeometryTrait<T = T> {
    type Output = Option<Rect<T>>;

    open spec fn bounding_rect_spec(&self) -> Option<Rect<T>> {
        collection_bounds(self.geometries_view().map_values(|m: GC::GeometryType| m.geometry_view()))
    }

    fn bounding_rect_trait(&self) -> (r: Option<Rect<T>>) {
        collection_bounding_rect(
            self,
            Ghost(self.geometries_view().map_values(|m: GC::GeometryType| m.geometry_view())),
        )
    }
}

} // verus!
