//! Points and the point capability.
use crate::coord::{Coord, CoordTrait};
use crate::marker::{GeoTraitExtWithTypeMarker, PointTraitExtMarker};
use vstd::prelude::*;

verus! {

/// A point: one coordinate, or none for an empty point.
#[derive(Clone, Copy, Debug, PartialEq)]
pub struct Point<T>(pub Option<Coord<T>>);

impl<T> Point<T> {
    /// The point at `(x, y)`.
    pub fn new(x: T, y: T) -> (r: Point<T>)
        ensures
            r.0 == Some(Coord { x, y }),
    {
        Point(Some(Coord { x, y }))
    }

    /// The empty point.
    pub fn empty() -> (r: Point<T>)
        ensures
            r.0 is None,
    {
        Point(None)
    }
}

/// Read access to a point, which may be empty.
pub trait PointTrait {
    /// The component type.
    type T;

    /// The type of its coordinate.
    type CoordType: CoordTrait<T = Self::T>;

    /// Its coordinate, `None` when the point is empty.
    spec fn point_view(&self) -> Option<Coord<Self::T>>;

    /// The location of the point, `None` when it is empty.
    fn coord(&self) -> (r: Option<Self::CoordType>)
        ensures
            match r {
                Some(c) => self.point_view() == Some(c.coord_view()),
                None => self.point_view() is None,
            },
    ;
}

/// A point capability that carries the point tag.
pub trait PointTraitExt<T>: PointTrait<T = T> + GeoTraitExtWithTypeMarker<
    Marker = PointTraitExtMarker,
> {

}

impl<T: Copy> PointTrait for Point<T> {
    type T = T;

    type CoordType = Coord<T>;

    open spec fn point_view(&self) -> Option<Coord<T>> {
        self.0
    }

    fn coord(&self) -> (r: Option<Coord<T>>) {
        self.0
    }
}

impl<T> GeoTraitExtWithTypeMarker for Point<T> {
    type Marker = PointTraitExtMarker;
}

impl<T: Copy> PointTraitExt<T> for Point<T> {

}

} // verus!
