//! Coordinates and the coordinate capability.
use crate::marker::{CoordTraitExtMarker, GeoTraitExtWithTypeMarker};
use vstd::prelude::*;

verus! {

/// A planar coordinate: a horizontal `x` and a vertical `y` component.
#[derive(Clone, Copy, Debug, PartialEq)]
pub struct Coord<T> {
    pub x: T,
    pub y: T,
}

/// Read access to a 2-D coordinate.
pub trait CoordTrait {
    /// The component type.
    type T;

    /// The coordinate this value stands for.
    spec fn coord_view(&self) -> Coord<Self::T>;

    /// The horizontal component.
    fn x(&self) -> (r: Self::T)
        ensures
            r == self.coord_view().x,
    ;

    /// The vertical component.
    fn y(&self) -> (r: Self::T)
        ensures
            r == self.coord_view().y,
    ;

    /// Both components, `x` first.
    fn x_y(&self) -> (r: (Self::T, Self::T))
        ensures
            r == (self.coord_view().x, self.coord_view().y),
    {
        (self.x(), self.y())
    }

    /// The `n`-th component: `x` for 0, `y` for 1.
    fn nth_or_panic(&self, n: usize) -> (r: Self::T)
        requires
            n < 2,
        ensures
            n == 0 ==> r == self.coord_view().x,
            n == 1 ==> r == self.coord_view().y,
    {
        if n == 0 {
            self.x()
        } else {
            self.y()
        }
    }

    /// The coordinate as a plain `Coord`.
    fn to_coord(&self) -> (r: Coord<Self::T>)
        ensures
            r == self.coord_view(),
    {
        Coord { x: self.x(), y: self.y() }
    }

    /// The `n`-th component, or `None` past the two dimensions.
    fn nth(&self, n: usize) -> (r: Option<Self::T>)
        ensures
            n == 0 ==> r == Some(self.coord_view().x),
            n == 1 ==> r == Some(self.coord_view().y),
            n >= 2 ==> r is None,
    {
        if n < 2 {
            Some(self.nth_or_panic(n))
        } else {
            None
        }
    }
}

/// A coordinate capability that carries the coordinate tag.
pub trait CoordTraitExt<T>: CoordTrait<T = T> + GeoTraitExtWithTypeMarker<
    Marker = CoordTraitExtMarker,
> {

}

impl<T: Copy> CoordTrait for Coord<T> {
    type T = T;

    open spec fn coord_view(&self) -> Coord<T> {
        *self
    }

    fn x(&self) -> (r: T) {
        self.x
    }

    fn y(&self) -> (r: T) {
        self.y
    }
}

impl<T> GeoTraitExtWithTypeMarker for Coord<T> {
    type Marker = CoordTraitExtMarker;
}

impl<T: Copy> CoordTraitExt<T> for Coord<T> {

}

/// A pair `(x, y)` is a coordinate too.
impl<T: Copy> CoordTrait for (T, T) {
    type T = T;

    open spec fn coord_view(&self) -> Coord<T> {
        Coord { x: self.0, y: self.1 }
    }

    fn x(&self) -> (r: T) {
        self.0
    }

    fn y(&self) -> (r: T) {
        self.1
    }
}

impl<T> GeoTraitExtWithTypeMarker for (T, T) {
    type Marker = CoordTraitExtMarker;
}

impl<T: Copy> CoordTraitExt<T> for (T, T) {

}

} // verus!
