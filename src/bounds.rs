//! What the bounding rectangle of each shape kind is, over the shapes' views.
use crate::coord::Coord;
use crate::geometry::GeometryView;
use crate::line::Line;
use crate::order::{max_spec, min_spec};
use crate::polygon::PolygonView;
use crate::rect::{rect_of_corners, Rect};
use crate::triangle::Triangle;
use vstd::prelude::*;

verus! {

/// The degenerate rectangle at `c`: zero width, zero height.
pub open spec fn point_rect<T>(c: Coord<T>) -> Rect<T> {
    Rect { min: c, max: c }
}

/// The smallest rectangle that holds both `a` and `b`: the component-wise
/// minimum of their `min` corners and maximum of their `max` corners.
pub open spec fn merge_spec<T: PartialOrd>(a: Rect<T>, b: Rect<T>) -> Rect<T> {
    Rect {
        min: Coord { x: min_spec(a.min.x, b.min.x), y: min_spec(a.min.y, b.min.y) },
        max: Coord { x: max_spec(a.max.x, b.max.x), y: max_spec(a.max.y, b.max.y) },
    }
}

/// Two rectangles that may be absent, merged: an absent one leaves the other.
pub open spec fn merge_opt_spec<T: PartialOrd>(a: Option<Rect<T>>, b: Option<Rect<T>>) -> Option<
    Rect<T>,
> {
    match (a, b) {
        (None, None) => None,
        (Some(r), None) => Some(r),
        (None, Some(r)) => Some(r),
        (Some(r1), Some(r2)) => Some(merge_spec(r1, r2)),
    }
}

/// `acc` grown by the coordinates of `s`, taken in order. Each coordinate
/// is merged in as the first operand, so one that does not compare (NaN)
/// leaves the rectangle as it was.
pub open spec fn extend_coords<T: PartialOrd>(acc: Option<Rect<T>>, s: Seq<Coord<T>>) -> Option<
    Rect<T>,
>
    decreases s.len(),
{
    if s.len() == 0 {
        acc
    } else {
        merge_opt_spec(Some(point_rect(s.last())), extend_coords(acc, s.drop_last()))
    }
}

/// The bounding rectangle of a coordinate sequence: absent when it is
/// empty, else the running component-wise minimum and maximum.
pub open spec fn coords_bounds<T: PartialOrd>(s: Seq<Coord<T>>) -> Option<Rect<T>> {
    extend_coords(None, s)
}

/// The coordinates of the points of `s` that are not empty, in order.
pub open spec fn present_coords<T>(s: Seq<Option<Coord<T>>>) -> Seq<Coord<T>>
    decreases s.len(),
{
    if s.len() == 0 {
        Seq::empty()
    } else {
        match s.last() {
            Some(c) => present_coords(s.drop_last()).push(c),
            None => present_coords(s.drop_last()),
        }
    }
}

/// The exterior ring of a polygon, empty when it has none.
pub open spec fn exterior_coords<T>(p: PolygonView<T>) -> Seq<Coord<T>> {
    match p.exterior {
        Some(ring) => ring,
        None => Seq::empty(),
    }
}

/// The exterior rings of the polygons of `s`, one after the other.
pub open spec fn exteriors_coords<T>(s: Seq<PolygonView<T>>) -> Seq<Coord<T>> {
    s.map_values(|p: PolygonView<T>| exterior_coords(p)).flatten()
}

/// The bounding rectangle of a point: absent when the point is empty.
pub open spec fn point_bounds<T>(p: Option<Coord<T>>) -> Option<Rect<T>> {
    match p {
        Some(c) => Some(point_rect(c)),
        None => None,
    }
}

/// The bounding rectangle of a segment: the component-wise minimum and
/// maximum of its two ends, whatever their order.
pub open spec fn line_rect<T: PartialOrd>(l: Line<T>) -> Rect<T> {
    rect_of_corners(l.start, l.end)
}

/// The bounding rectangle of a triangle: that of its three vertices, in
/// order.
pub open spec fn triangle_rect<T: PartialOrd>(t: Triangle<T>) -> Rect<T> {
    merge_spec(point_rect(t.2), merge_spec(point_rect(t.1), point_rect(t.0)))
}

/// The bounding rectangle of a polygon: that of its exterior ring alone.
pub open spec fn polygon_bounds<T: PartialOrd>(p: PolygonView<T>) -> Option<Rect<T>> {
    coords_bounds(exterior_coords(p))
}

/// The bounding rectangle of a geometry of any kind, by the rule of the
/// kind it holds.
pub open spec fn geometry_bounds<T: PartialOrd>(g: GeometryView<T>) -> Option<Rect<T>>
    decreases g,
{
    match g {
        GeometryView::Point(p) => point_bounds(p),
        GeometryView::LineString(s) => coords_bounds(s),
        GeometryView::Polygon(p) => polygon_bounds(p),
        GeometryView::MultiPoint(s) => coords_bounds(present_coords(s)),
        GeometryView::MultiLineString(s) => coords_bounds(s.flatten()),
        GeometryView::MultiPolygon(s) => coords_bounds(exteriors_coords(s)),
        GeometryView::GeometryCollection(s) => members_bounds(s, s.len() as int),
        GeometryView::Rect(r) => Some(r),
        GeometryView::Triangle(t) => Some(triangle_rect(t)),
        GeometryView::Line(l) => Some(line_rect(l)),
    }
}

/// The bounding rectangles of the first `n` members of `s`, merged from
/// left to right, starting from an absent rectangle.
pub open spec fn members_bounds<T: PartialOrd>(s: Seq<GeometryView<T>>, n: int) -> Option<Rect<T>>
    decreases s, n,
{
    if n <= 0 || n > s.len() {
        None
    } else {
        merge_opt_spec(members_bounds(s, n - 1), geometry_bounds(s[n - 1]))
    }
}

/// The bounding rectangle of a geometry collection with members `s`.
pub open spec fn collection_bounds<T: PartialOrd>(s: Seq<GeometryView<T>>) -> Option<Rect<T>> {
    members_bounds(s, s.len() as int)
}

/// Growing by `a + b` is growing by `a`, then by `b`.
pub proof fn lemma_extend_coords_concat<T: PartialOrd>(
    acc: Option<Rect<T>>,
    a: Seq<Coord<T>>,
    b: Seq<Coord<T>>,
)
    ensures
        extend_coords(acc, a + b) == extend_coords(extend_coords(acc, a), b),
    decreases b.len(),
{
    if b.len() == 0 {
        assert(a + b =~= a);
    } else {
        lemma_extend_coords_concat(acc, a, b.drop_last());
        assert((a + b).drop_last() =~= a + b.drop_last());
        assert((a + b).last() == b.last());
    }
}

/// Growing by a sequence with one more coordinate is one more merge.
pub proof fn lemma_extend_coords_push<T: PartialOrd>(
    acc: Option<Rect<T>>,
    s: Seq<Coord<T>>,
    c: Coord<T>,
)
    ensures
        extend_coords(acc, s.push(c)) == merge_opt_spec(Some(point_rect(c)), extend_coords(acc, s)),
{
    assert(s.push(c).drop_last() =~= s);
}

} // verus!
