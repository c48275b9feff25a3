//! Multi-points and the multi-point capability.
use crate::bounds::present_coords;
use crate::coord::{Coord, CoordTrait};
use crate::marker::{GeoTraitExtWithTypeMarker, MultiPointTraitExtMarker};
use crate::point::{Point, PointTrait};
use vstd::prelude::*;

verus! {

/// A collection of points.
#[derive(Clone, Debug, PartialEq)]
pub struct MultiPoint<T>(pub Vec<Point<T>>);

impl<T> MultiPoint<T> {
    /// The collection of `points`, in order.
    pub fn new(points: Vec<Point<T>>) -> (r: MultiPoint<T>)
        ensures
            r.0@ == points@,
    {
        MultiPoint(points)
    }
}

/// Read access to a multi-point: a count of points and indexed access.
pub trait MultiPointTrait {
    /// The component type.
    type T;

    /// The type of its points.
    type PointType: PointTrait<T = Self::T>;

    /// Its points, each `None` when empty.
    spec fn points_view(&self) -> Seq<Option<Coord<Self::T>>>;

    /// The number of points.
    fn num_points(&self) -> (r: usize)
        ensures
            r == self.points_view().len(),
    ;

    /// The point at index `i`, which must be in range.
    fn point_unchecked(&self, i: usize) -> (r: &Self::PointType)
        requires
            i < self.points_view().len(),
        ensures
            r.point_view() == self.points_view()[i as int],
    ;

    /// The point at index `i`, or `None` when `i` is out of range.
    fn point(&self, i: usize) -> (r: Option<&Self::PointType>)
        ensures
            i < self.points_view().len() ==> r is Some && r->0.point_view()
                == self.points_view()[i as int],
            i >= self.points_view().len() ==> r is None,
    {
        if i >= self.num_points() {
            None
        } else {
            Some(self.point_unchecked(i))
        }
    }
}

/// A multi-point capability that carries the multi-point tag.
pub trait MultiPointTraitExt<T>: MultiPointTrait<T = T> + GeoTraitExtWithTypeMarker<
    Marker = MultiPointTraitExtMarker,
> {
    /// The coordinates of its points that are not empty, in order, as plain
    /// `Coord`s.
    fn to_coords(&self) -> (r: Vec<Coord<T>>)
        ensures
            r@ == present_coords(self.points_view()),
    {
        let n = self.num_points();
        let mut out: Vec<Coord<T>> = Vec::new();
        let mut i: usize = 0;
        while i < n
            invariant
                n == self.points_view().len(),
                i <= n,
                out@ == present_coords(self.points_view().subrange(0, i as int)),
            decreases n - i,
        {
            proof {
                assert(self.points_view().subrange(0, i + 1).drop_last() =~= self.points_view().subrange(
                    0,
                    i as int,
                ));
            }
            match self.point_unchecked(i).coord() {
                Some(c) => out.push(c.to_coord()),
                None => {},
            }
            i += 1;
        }
        proof {
            assert(self.points_view().subrange(0, n as int) =~= self.points_view());
        }
        out
    }
}

impl<T: Copy> MultiPointTrait for MultiPoint<T> {
    type T = T;

    type PointType = Point<T>;

    open spec fn points_view(&self) -> Seq<Option<Coord<T>>> {
        self.0@.map_values(|p: Point<T>| p.0)
    }

    fn num_points(&self) -> (r: usize) {
        self.0.len()
    }

    fn point_unchecked(&self, i: usize) -> (r: &Point<T>) {
        let p = &self.0[i];
        assert(p.point_view() == self.points_view()[i as int]);
        p
    }
}

impl<T> GeoTraitExtWithTypeMarker for MultiPoint<T> {
    type Marker = MultiPointTraitExtMarker;
}

impl<T: Copy> MultiPointTraitExt<T> for MultiPoint<T> {

}

} // verus!
