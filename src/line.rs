//! Line segments and the line capability.
use crate::coord::{Coord, CoordTrait};
use crate::marker::{GeoTraitExtWithTypeMarker, LineTraitExtMarker};
use vstd::prelude::*;

verus! {

/// A line segment from `start` to `end`.
#[derive(Clone, Copy, Debug, PartialEq)]
pub struct Line<T> {
    pub start: Coord<T>,
    pub end: Coord<T>,
}

impl<T> Line<T> {
    /// The segment from `start` to `end`.
    pub fn new(start: Coord<T>, end: Coord<T>) -> (r: Line<T>)
        ensures
            r.start == start,
            r.end == end,
    {
        Line { start, end }
    }
}

/// Read access to a line segment: exactly two coordinates.
pub trait LineTrait {
    /// The component type.
    type T;

    /// The type of its two coordinates.
    type CoordType: CoordTrait<T = Self::T>;

    /// The segment this value stands for.
    spec fn line_view(&self) -> Line<Self::T>;

    /// The start coordinate.
    fn start(&self) -> (r: Self::CoordType)
        ensures
            r.coord_view() == self.line_view().start,
    ;

    /// The end coordinate.
    fn end(&self) -> (r: Self::CoordType)
        ensures
            r.coord_view() == self.line_view().end,
    ;

    /// Both coordinates, start first.
    fn coords(&self) -> (r: [Self::CoordType; 2])
        ensures
            r@[0].coord_view() == self.line_view().start,
            r@[1].coord_view() == self.line_view().end,
    {
        [self.start(), self.end()]
    }
}

/// A line capability that carries the line tag.
pub trait LineTraitExt<T>: LineTrait<T = T> + GeoTraitExtWithTypeMarker<
    Marker = LineTraitExtMarker,
> {

}

impl<T: Copy> LineTrait for Line<T> {
    type T = T;

    type CoordType = Coord<T>;

    open spec fn line_view(&self) -> Line<T> {
        *self
    }

    fn start(&self) -> (r: Coord<T>) {
        self.start
    }

    fn end(&self) -> (r: Coord<T>) {
        self.end
    }
}

impl<T> GeoTraitExtWithTypeMarker for Line<T> {
    type Marker = LineTraitExtMarker;
}

impl<T: Copy> LineTraitExt<T> for Line<T> {

}

} // verus!
