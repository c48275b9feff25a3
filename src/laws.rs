//! Laws of the bounding rectangle, proved over the contracts' specifications.
use crate::bounding_rect::BoundingRect;
use crate::bounds::{
    coords_bounds, geometry_bounds, line_rect, members_bounds, merge_opt_spec, merge_spec,
    point_rect,
};
use crate::coord::Coord;
use crate::geometry::{Geometry, GeometryCollection, GeometryTrait, GeometryView};
use crate::line::Line;
use crate::line_string::LineString;
use crate::order::{
    is_total_order, lemma_less_eq_refl, lemma_less_eq_trans, lemma_max_associative,
    lemma_max_commutative, lemma_min_associative, lemma_min_commutative, lemma_not_less,
    lemma_greater_less, less, less_eq,
};
use crate::rect::Rect;
use vstd::prelude::*;

verus! {

/// `r.min` is the component-wise minimum of `s` and `r.max` its
/// component-wise maximum: each corner component bounds every coordinate of
/// `s` and is that component of some coordinate of `s`.
pub open spec fn is_extent_of<T: PartialOrd>(r: Rect<T>, s: Seq<Coord<T>>) -> bool {
    &&& forall|i: int|
        0 <= i < s.len() ==> less_eq(r.min.x, #[trigger] s[i].x) && less_eq(r.min.y, s[i].y)
            && less_eq(s[i].x, r.max.x) && less_eq(s[i].y, r.max.y)
    &&& exists|i: int| 0 <= i < s.len() && #[trigger] s[i].x == r.min.x
    &&& exists|i: int| 0 <= i < s.len() && #[trigger] s[i].y == r.min.y
    &&& exists|i: int| 0 <= i < s.len() && #[trigger] s[i].x == r.max.x
    &&& exists|i: int| 0 <= i < s.len() && #[trigger] s[i].y == r.max.y
}

/// The bounding rectangle of a coordinate sequence is absent exactly when
/// the sequence is empty, and otherwise spans its component-wise minimum
/// and maximum.
pub proof fn lemma_coords_bounds_extent<T: PartialOrd>(s: Seq<Coord<T>>)
    requires
        is_total_order::<T>(),
    ensures
        s.len() == 0 <==> coords_bounds(s) is None,
        s.len() > 0 ==> is_extent_of(coords_bounds(s)->0, s),
    decreases s.len(),
{
    if s.len() > 0 {
        let c = s.last();
        let p = s.drop_last();
        lemma_coords_bounds_extent(p);
        let r = coords_bounds(s)->0;
        lemma_less_eq_refl(c.x);
        lemma_less_eq_refl(c.y);
        if p.len() == 0 {
            assert(r == point_rect(c));
            assert(s[0] == c);
            assert(is_extent_of(r, s));
        } else {
            let q = coords_bounds(p)->0;
            assert(r == merge_spec(point_rect(c), q));
            lemma_extent_step(q, p, c);
            assert(s =~= p.push(c));
        }
    }
}

proof fn lemma_extent_step<T: PartialOrd>(q: Rect<T>, p: Seq<Coord<T>>, c: Coord<T>)
    requires
        is_total_order::<T>(),
        is_extent_of(q, p),
    ensures
        is_extent_of(merge_spec(point_rect(c), q), p.push(c)),
{
    let r = merge_spec(point_rect(c), q);
    let s = p.push(c);
    lemma_less_eq_refl(q.min.x);
    lemma_less_eq_refl(q.min.y);
    lemma_less_eq_refl(q.max.x);
    lemma_less_eq_refl(q.max.y);
    lemma_less_eq_refl(c.x);
    lemma_less_eq_refl(c.y);
    lemma_greater_less(c.x, q.max.x);
    lemma_greater_less(c.y, q.max.y);
    if !less(c.x, q.min.x) {
        lemma_not_less(c.x, q.min.x);
    }
    if !less(c.y, q.min.y) {
        lemma_not_less(c.y, q.min.y);
    }
    if !less(q.max.x, c.x) {
        lemma_not_less(q.max.x, c.x);
    }
    if !less(q.max.y, c.y) {
        lemma_not_less(q.max.y, c.y);
    }
    // each corner component is at or beyond the old one and the new coordinate
    assert(less_eq(r.min.x, q.min.x) && less_eq(r.min.x, c.x));
    assert(less_eq(r.min.y, q.min.y) && less_eq(r.min.y, c.y));
    assert(less_eq(q.max.x, r.max.x) && less_eq(c.x, r.max.x));
    assert(less_eq(q.max.y, r.max.y) && less_eq(c.y, r.max.y));
    assert forall|i: int| 0 <= i < s.len() implies less_eq(r.min.x, #[trigger] s[i].x) && less_eq(
        r.min.y,
        s[i].y,
    ) && less_eq(s[i].x, r.max.x) && less_eq(s[i].y, r.max.y) by {
        if i < p.len() {
            assert(s[i] == p[i]);
            lemma_less_eq_trans(r.min.x, q.min.x, s[i].x);
            lemma_less_eq_trans(r.min.y, q.min.y, s[i].y);
            lemma_less_eq_trans(s[i].x, q.max.x, r.max.x);
            lemma_less_eq_trans(s[i].y, q.max.y, r.max.y);
        } else {
            assert(s[i] == c);
        }
    }
    assert(s[p.len() as int] == c);
    let ix = choose|i: int| 0 <= i < p.len() && #[trigger] p[i].x == q.min.x;
    let iy = choose|i: int| 0 <= i < p.len() && #[trigger] p[i].y == q.min.y;
    let jx = choose|i: int| 0 <= i < p.len() && #[trigger] p[i].x == q.max.x;
    let jy = choose|i: int| 0 <= i < p.len() && #[trigger] p[i].y == q.max.y;
    assert(s[ix] == p[ix] && s[iy] == p[iy] && s[jx] == p[jx] && s[jy] == p[jy]);
}

/// A line string with no coordinate has no bounding rectangle; one with a
/// single coordinate has the degenerate rectangle at it; any other has
/// `min` at the component-wise minimum of its coordinates and `max` at
/// their component-wise maximum.
pub proof fn lemma_line_string_bounding_rect<T: PartialOrd + Copy>(ls: LineString<T>)
    requires
        is_total_order::<T>(),
    ensures
        ls.0@.len() == 0 <==> <LineString<T> as BoundingRect<T>>::bounding_rect_spec(&ls) is None,
        ls.0@.len() == 1 ==> <LineString<T> as BoundingRect<T>>::bounding_rect_spec(&ls) == Some(
            point_rect(ls.0@[0]),
        ),
        ls.0@.len() > 0 ==> is_extent_of(
            <LineString<T> as BoundingRect<T>>::bounding_rect_spec(&ls)->0,
            ls.0@,
        ),
{
    lemma_coords_bounds_extent(ls.0@);
    if ls.0@.len() == 1 {
        assert(ls.0@.drop_last().len() == 0);
    }
}

/// Merging is commutative.
pub proof fn lemma_merge_commutative<T: PartialOrd>(a: Rect<T>, b: Rect<T>)
    requires
        is_total_order::<T>(),
    ensures
        merge_spec(a, b) == merge_spec(b, a),
{
    lemma_min_commutative(a.min.x, b.min.x);
    lemma_min_commutative(a.min.y, b.min.y);
    lemma_max_commutative(a.max.x, b.max.x);
    lemma_max_commutative(a.max.y, b.max.y);
}

/// Merging is associative.
pub proof fn lemma_merge_associative<T: PartialOrd>(a: Rect<T>, b: Rect<T>, c: Rect<T>)
    requires
        is_total_order::<T>(),
    ensures
        merge_spec(merge_spec(a, b), c) == merge_spec(a, merge_spec(b, c)),
{
    lemma_min_associative(a.min.x, b.min.x, c.min.x);
    lemma_min_associative(a.min.y, b.min.y, c.min.y);
    lemma_max_associative(a.max.x, b.max.x, c.max.x);
    lemma_max_associative(a.max.y, b.max.y, c.max.y);
}

/// A segment has the same bounding rectangle whichever end comes first.
pub proof fn lemma_line_order_independent<T: PartialOrd + Copy>(a: Coord<T>, b: Coord<T>)
    requires
        is_total_order::<T>(),
    ensures
        line_rect(Line { start: a, end: b }) == line_rect(Line { start: b, end: a }),
{
    lemma_min_commutative(a.x, b.x);
    lemma_min_commutative(a.y, b.y);
    lemma_max_commutative(a.x, b.x);
    lemma_max_commutative(a.y, b.y);
}

/// A rectangle is its own bounding rectangle.
pub proof fn lemma_rect_bounding_rect_identity<T: PartialOrd + Copy>(r: Rect<T>)
    ensures
        <Rect<T> as BoundingRect<T>>::bounding_rect_spec(&r) == r,
{
}

proof fn lemma_members_bounds_all_empty<T: PartialOrd>(s: Seq<GeometryView<T>>, n: int)
    requires
        0 <= n <= s.len(),
        forall|i: int| 0 <= i < n ==> (#[trigger] geometry_bounds(s[i])) is None,
    ensures
        members_bounds(s, n) is None,
    decreases n,
{
    if n > 0 {
        lemma_members_bounds_all_empty(s, n - 1);
        assert(geometry_bounds(s[n - 1]) is None);
        assert(members_bounds(s, n) == merge_opt_spec(
            members_bounds(s, n - 1),
            geometry_bounds(s[n - 1]),
        ));
    }
}

proof fn lemma_members_bounds_one_nonempty<T: PartialOrd>(s: Seq<GeometryView<T>>, k: int, n: int)
    requires
        0 <= k < s.len(),
        0 <= n <= s.len(),
        forall|i: int| 0 <= i < s.len() && i != k ==> (#[trigger] geometry_bounds(s[i])) is None,
    ensures
        n <= k ==> members_bounds(s, n) is None,
        n > k ==> members_bounds(s, n) == geometry_bounds(s[k]),
    decreases n,
{
    if n > 0 {
        lemma_members_bounds_one_nonempty(s, k, n - 1);
        if n - 1 != k {
            assert(geometry_bounds(s[n - 1]) is None);
        }
        assert(members_bounds(s, n) == merge_opt_spec(
            members_bounds(s, n - 1),
            geometry_bounds(s[n - 1]),
        ));
    }
}

/// A collection whose members all lack a bounding rectangle lacks one too.
pub proof fn lemma_collection_of_empty_members<T: PartialOrd + Copy>(gc: GeometryCollection<T>)
    requires
        forall|i: int|
            0 <= i < gc.0@.len() ==> <Geometry<T> as BoundingRect<T>>::bounding_rect_spec(
                &#[trigger] gc.0@[i],
            ) is None,
    ensures
        <GeometryCollection<T> as BoundingRect<T>>::bounding_rect_spec(&gc) is None,
{
    let views = gc.0@.map_values(|m: Geometry<T>| m.geometry_view());
    assert forall|i: int| 0 <= i < views.len() implies (#[trigger] geometry_bounds(
        views[i],
    )) is None by {
        assert(<Geometry<T> as BoundingRect<T>>::bounding_rect_spec(&gc.0@[i]) is None);
    }
    lemma_members_bounds_all_empty(views, views.len() as int);
}

/// A collection with exactly one member that has a bounding rectangle has
/// that member's rectangle, unchanged.
pub proof fn lemma_collection_of_one_nonempty_member<T: PartialOrd + Copy>(
    gc: GeometryCollection<T>,
    k: int,
)
    requires
        0 <= k < gc.0@.len(),
        <Geometry<T> as BoundingRect<T>>::bounding_rect_spec(&gc.0@[k]) is Some,
        forall|i: int|
            0 <= i < gc.0@.len() && i != k ==> <Geometry<T> as BoundingRect<
                T,
            >>::bounding_rect_spec(&#[trigger] gc.0@[i]) is None,
    ensures
        <GeometryCollection<T> as BoundingRect<T>>::bounding_rect_spec(&gc) == <Geometry<
            T,
        > as BoundingRect<T>>::bounding_rect_spec(&gc.0@[k]),
{
    let views = gc.0@.map_values(|m: Geometry<T>| m.geometry_view());
    assert forall|i: int| 0 <= i < views.len() && i != k implies (#[trigger] geometry_bounds(
        views[i],
    )) is None by {
        assert(<Geometry<T> as BoundingRect<T>>::bounding_rect_spec(&gc.0@[i]) is None);
    }
    lemma_members_bounds_one_nonempty(views, k, views.len() as int);
}

} // verus!
