//! Axis-aligned rectangles and the rectangle capability.
use crate::coord::{Coord, CoordTrait};
use crate::line::Line;
use crate::line_string::LineString;
use crate::polygon::Polygon;
use crate::marker::{GeoTraitExtWithTypeMarker, RectTraitExtMarker};
use crate::order::{less_eq, partial_max, partial_min, max_spec, min_spec};
use vstd::prelude::*;
use vstd::std_specs::cmp::PartialOrdSpec;

verus! {

/// An axis-aligned rectangle from its lower-left `min` to its upper-right
/// `max` corner.
///
/// The fields are public: a rectangle built by hand may have `min` above
/// `max`. `has_valid_bounds` tells; nothing here builds such a rectangle.
#[derive(Clone, Copy, Debug, PartialEq)]
pub struct Rect<T> {
    pub min: Coord<T>,
    pub max: Coord<T>,
}

/// The rectangle spanned by two corners, whatever their order.
pub open spec fn rect_of_corners<T: PartialOrd>(c1: Coord<T>, c2: Coord<T>) -> Rect<T> {
    Rect {
        min: Coord { x: min_spec(c1.x, c2.x), y: min_spec(c1.y, c2.y) },
        max: Coord { x: max_spec(c1.x, c2.x), y: max_spec(c1.y, c2.y) },
    }
}

/// The closed ring round `r`, counter-clockwise from its `min` corner.
pub open spec fn rect_ring<T>(r: Rect<T>) -> Seq<Coord<T>> {
    seq![
        r.min,
        Coord { x: r.min.x, y: r.max.y },
        r.max,
        Coord { x: r.max.x, y: r.min.y },
        r.min,
    ]
}

/// The four sides of `r`: right, top, left, bottom, counter-clockwise.
pub open spec fn rect_sides<T>(r: Rect<T>) -> Seq<Line<T>> {
    let lower_right = Coord { x: r.max.x, y: r.min.y };
    let upper_left = Coord { x: r.min.x, y: r.max.y };
    seq![
        Line { start: lower_right, end: r.max },
        Line { start: r.max, end: upper_left },
        Line { start: upper_left, end: r.min },
        Line { start: r.min, end: lower_right },
    ]
}

/// `min` lies below or at `max` on both axes.
pub open spec fn valid_bounds<T: PartialOrd>(r: Rect<T>) -> bool {
    less_eq(r.min.x, r.max.x) && less_eq(r.min.y, r.max.y)
}

impl<T: PartialOrd + Copy> Rect<T> {
    /// The rectangle spanned by two corners, given in any order.
    pub fn new(c1: Coord<T>, c2: Coord<T>) -> (r: Rect<T>)
        ensures
            T::obeys_partial_cmp_spec() ==> r == rect_of_corners(c1, c2),
    {
        Rect {
            min: Coord { x: partial_min(c1.x, c2.x), y: partial_min(c1.y, c2.y) },
            max: Coord { x: partial_max(c1.x, c2.x), y: partial_max(c1.y, c2.y) },
        }
    }

    /// The lower-left corner.
    pub fn min(&self) -> (r: Coord<T>)
        ensures
            r == self.min,
    {
        self.min
    }

    /// The upper-right corner.
    pub fn max(&self) -> (r: Coord<T>)
        ensures
            r == self.max,
    {
        self.max
    }
}

/// Read access to an axis-aligned rectangle.
pub trait RectTrait {
    /// The component type.
    type T;

    /// The type of its two corners.
    type CoordType: CoordTrait<T = Self::T>;

    /// The rectangle this value stands for.
    spec fn rect_view(&self) -> Rect<Self::T>;

    /// The lower-left corner.
    fn min(&self) -> (r: Self::CoordType)
        ensures
            r.coord_view() == self.rect_view().min,
    ;

    /// The upper-right corner.
    fn max(&self) -> (r: Self::CoordType)
        ensures
            r.coord_view() == self.rect_view().max,
    ;
}

/// A rectangle capability that carries the rectangle tag.
pub trait RectTraitExt<T: PartialOrd + Copy>: RectTrait<T = T> + GeoTraitExtWithTypeMarker<
    Marker = RectTraitExtMarker,
>{
    /// The rectangle as a plain `Rect`.
    fn to_rect(&self) -> (r: Rect<T>)
        ensures
            r == self.rect_view(),
    {
        Rect { min: self.min().to_coord(), max: self.max().to_coord() }
    }

    /// The closed ring round the rectangle.
    fn to_line_string(&self) -> (r: LineString<T>)
        ensures
            r.0@ == rect_ring(self.rect_view()),
    {
        let lo = self.min().to_coord();
        let hi = self.max().to_coord();
        let ring = vec![lo, Coord { x: lo.x, y: hi.y }, hi, Coord { x: hi.x, y: lo.y }, lo];
        proof {
            assert(ring@ =~= rect_ring(self.rect_view()));
        }
        LineString(ring)
    }

    /// The rectangle as a polygon without holes.
    fn to_polygon(&self) -> (r: Polygon<T>)
        ensures
            r.exterior.0@ == rect_ring(self.rect_view()),
            r.interiors@.len() == 0,
    {
        Polygon { exterior: self.to_line_string(), interiors: Vec::new() }
    }

    /// The four sides of the rectangle.
    fn to_lines(&self) -> (r: [Line<T>; 4])
        ensures
            r@ == rect_sides(self.rect_view()),
    {
        let lo = self.min().to_coord();
        let hi = self.max().to_coord();
        let lower_right = Coord { x: hi.x, y: lo.y };
        let upper_left = Coord { x: lo.x, y: hi.y };
        let sides = [
            Line { start: lower_right, end: hi },
            Line { start: hi, end: upper_left },
            Line { start: upper_left, end: lo },
            Line { start: lo, end: lower_right },
        ];
        proof {
            assert(sides@ =~= rect_sides(self.rect_view()));
        }
        sides
    }

    /// Whether `min` lies below or at `max` on both axes.
    fn has_valid_bounds(&self) -> (r: bool)
        ensures
            T::obeys_partial_cmp_spec() ==> r == valid_bounds(self.rect_view()),
    {
        let lo = self.min();
        let hi = self.max();
        lo.x() <= hi.x() && lo.y() <= hi.y()
    }

    /// Whether `coord` lies in the rectangle, its boundary included.
    fn contains_point(&self, coord: &Coord<T>) -> (r: bool)
        ensures
            T::obeys_partial_cmp_spec() ==> r == (less_eq(self.rect_view().min.x, coord.x)
                && less_eq(coord.x, self.rect_view().max.x) && less_eq(
                self.rect_view().min.y,
                coord.y,
            ) && less_eq(coord.y, self.rect_view().max.y)),
    {
        let lo = self.min();
        let hi = self.max();
        (lo.x() <= coord.x && coord.x <= hi.x()) && (lo.y() <= coord.y && coord.y <= hi.y())
    }

    /// Whether `rect` lies in this rectangle, boundaries included.
    fn contains_rect(&self, rect: &Self) -> (r: bool)
        ensures
            T::obeys_partial_cmp_spec() ==> r == (less_eq(
                self.rect_view().min.x,
                rect.rect_view().min.x,
            ) && less_eq(rect.rect_view().max.x, self.rect_view().max.x) && less_eq(
                self.rect_view().min.y,
                rect.rect_view().min.y,
            ) && less_eq(rect.rect_view().max.y, self.rect_view().max.y)),
    {
        let lo = self.min();
        let hi = self.max();
        let other_lo = rect.min();
        let other_hi = rect.max();
        (lo.x() <= other_lo.x() && other_hi.x() <= hi.x()) && (lo.y() <= other_lo.y()
            && other_hi.y() <= hi.y())
    }
}

impl<T: Copy> RectTrait for Rect<T> {
    type T = T;

    type CoordType = Coord<T>;

    open spec fn rect_view(&self) -> Rect<T> {
        *self
    }

    fn min(&self) -> (r: Coord<T>) {
        self.min
    }

    fn max(&self) -> (r: Coord<T>) {
        self.max
    }
}

impl<T> GeoTraitExtWithTypeMarker for Rect<T> {
    type Marker = RectTraitExtMarker;
}

impl<T: PartialOrd + Copy> RectTraitExt<T> for Rect<T> {

}

} // verus!
