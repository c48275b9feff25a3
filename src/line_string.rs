//! Line strings and the line-string capability.
use crate::coord::{Coord, CoordTrait};
use crate::line::Line;
use crate::marker::{GeoTraitExtWithTypeMarker, LineStringTraitExtMarker};
use crate::triangle::Triangle;
use vstd::prelude::*;
use vstd::std_specs::cmp::PartialEqSpec;

verus! {

/// An ordered sequence of coordinates: a path.
#[derive(Clone, Debug, PartialEq)]
pub struct LineString<T>(pub Vec<Coord<T>>);

impl<T> LineString<T> {
    /// The path through `coords`, in order.
    pub fn new(coords: Vec<Coord<T>>) -> (r: LineString<T>)
        ensures
            r.0@ == coords@,
    {
        LineString(coords)
    }
}

/// Read access to a line string: a count of coordinates and indexed access.
pub trait LineStringTrait {
    /// The component type.
    type T;

    /// The type of its coordinates.
    type CoordType: CoordTrait<T = Self::T>;

    /// Its coordinates, in order.
    spec fn coords_view(&self) -> Seq<Coord<Self::T>>;

    /// The number of coordinates.
    fn num_coords(&self) -> (r: usize)
        ensures
            r == self.coords_view().len(),
    ;

    /// The coordinate at index `i`, which must be in range.
    fn coord_unchecked(&self, i: usize) -> (r: Self::CoordType)
        requires
            i < self.coords_view().len(),
        ensures
            r.coord_view() == self.coords_view()[i as int],
    ;

    /// The coordinate at index `i`, or `None` when `i` is out of range.
    fn coord(&self, i: usize) -> (r: Option<Self::CoordType>)
        ensures
            i < self.coords_view().len() ==> r is Some && r->0.coord_view()
                == self.coords_view()[i as int],
            i >= self.coords_view().len() ==> r is None,
    {
        if i >= self.num_coords() {
            None
        } else {
            Some(self.coord_unchecked(i))
        }
    }
}

/// The number of segments of a path with `n` coordinates.
pub open spec fn num_segments(n: nat) -> nat {
    if n == 0 {
        0
    } else {
        (n - 1) as nat
    }
}

/// A line-string capability that carries the line-string tag.
pub trait LineStringTraitExt<T: PartialEq>: LineStringTrait<T = T> + GeoTraitExtWithTypeMarker<
    Marker = LineStringTraitExtMarker,
> {
    /// One segment for each pair of consecutive coordinates, in path order.
    fn lines(&self) -> (r: Vec<Line<T>>)
        ensures
            r@.len() == num_segments(self.coords_view().len()),
            forall|i: int|
                0 <= i < r@.len() ==> #[trigger] r@[i] == (Line {
                    start: self.coords_view()[i],
                    end: self.coords_view()[i + 1],
                }),
    {
        let n = self.num_coords();
        let mut out: Vec<Line<T>> = Vec::new();
        if n == 0 {
            return out;
        }
        let mut i: usize = 1;
        while i < n
            invariant
                n == self.coords_view().len(),
                1 <= i <= n,
                out@.len() == i - 1,
                forall|k: int|
                    0 <= k < out@.len() ==> #[trigger] out@[k] == (Line {
                        start: self.coords_view()[k],
                        end: self.coords_view()[k + 1],
                    }),
            decreases n - i,
        {
            let start = self.coord_unchecked(i - 1).to_coord();
            let end = self.coord_unchecked(i).to_coord();
            out.push(Line { start, end });
            i += 1;
        }
        out
    }

    /// The segments of `lines`, last first, each from its end to its start.
    fn rev_lines(&self) -> (r: Vec<Line<T>>)
        ensures
            r@.len() == num_segments(self.coords_view().len()),
            forall|i: int|
                0 <= i < r@.len() ==> #[trigger] r@[i] == (Line {
                    start: self.coords_view()[self.coords_view().len() - 1 - i],
                    end: self.coords_view()[self.coords_view().len() - 2 - i],
                }),
    {
        let n = self.num_coords();
        let mut out: Vec<Line<T>> = Vec::new();
        if n == 0 {
            return out;
        }
        let mut i: usize = n;
        while i > 1
            invariant
                n == self.coords_view().len(),
                1 <= i <= n,
                out@.len() == n - i,
                forall|k: int|
                    0 <= k < out@.len() ==> #[trigger] out@[k] == (Line {
                        start: self.coords_view()[n - 1 - k],
                        end: self.coords_view()[n - 2 - k],
                    }),
            decreases i,
        {
            let start = self.coord_unchecked(i - 1).to_coord();
            let end = self.coord_unchecked(i - 2).to_coord();
            out.push(Line { start, end });
            i -= 1;
        }
        out
    }

    /// One triangle for each three consecutive coordinates, in path order.
    fn triangles(&self) -> (r: Vec<Triangle<T>>)
        ensures
            r@.len() == (if self.coords_view().len() < 3 {
                0
            } else {
                self.coords_view().len() - 2
            }),
            forall|i: int|
                0 <= i < r@.len() ==> #[trigger] r@[i] == Triangle(
                    self.coords_view()[i],
                    self.coords_view()[i + 1],
                    self.coords_view()[i + 2],
                ),
    {
        let n = self.num_coords();
        let mut out: Vec<Triangle<T>> = Vec::new();
        if n < 3 {
            return out;
        }
        let mut i: usize = 2;
        while i < n
            invariant
                n == self.coords_view().len(),
                2 <= i <= n,
                out@.len() == i - 2,
                forall|k: int|
                    0 <= k < out@.len() ==> #[trigger] out@[k] == Triangle(
                        self.coords_view()[k],
                        self.coords_view()[k + 1],
                        self.coords_view()[k + 2],
                    ),
            decreases n - i,
        {
            let v1 = self.coord_unchecked(i - 2).to_coord();
            let v2 = self.coord_unchecked(i - 1).to_coord();
            let v3 = self.coord_unchecked(i).to_coord();
            out.push(Triangle(v1, v2, v3));
            i += 1;
        }
        out
    }

    /// Its coordinates, in order, as plain `Coord`s.
    fn to_coords(&self) -> (r: Vec<Coord<T>>)
        ensures
            r@ == self.coords_view(),
    {
        let n = self.num_coords();
        let mut out: Vec<Coord<T>> = Vec::new();
        let mut i: usize = 0;
        while i < n
            invariant
                n == self.coords_view().len(),
                i <= n,
                out@ == self.coords_view().subrange(0, i as int),
            decreases n - i,
        {
            out.push(self.coord_unchecked(i).to_coord());
            i += 1;
        }
        proof {
            assert(self.coords_view().subrange(0, n as int) =~= self.coords_view());
        }
        out
    }

    /// Whether the path is closed: empty, or ending where it starts.
    fn is_closed(&self) -> (r: bool)
        ensures
            T::obeys_eq_spec() ==> r == (self.coords_view().len() == 0 || (
            self.coords_view()[0].x.eq_spec(&self.coords_view().last().x)
                && self.coords_view()[0].y.eq_spec(&self.coords_view().last().y))),
    {
        let n = self.num_coords();
        if n == 0 {
            true
        } else {
            let first = self.coord_unchecked(0).to_coord();
            let last = self.coord_unchecked(n - 1).to_coord();
            first.x == last.x && first.y == last.y
        }
    }
}

impl<T: Copy> LineStringTrait for LineString<T> {
    type T = T;

    type CoordType = Coord<T>;

    open spec fn coords_view(&self) -> Seq<Coord<T>> {
        self.0@
    }

    fn num_coords(&self) -> (r: usize) {
        self.0.len()
    }

    fn coord_unchecked(&self, i: usize) -> (r: Coord<T>) {
        self.0[i]
    }
}

impl<T> GeoTraitExtWithTypeMarker for LineString<T> {
    type Marker = LineStringTraitExtMarker;
}

impl<T: PartialEq + Copy> LineStringTraitExt<T> for LineString<T> {

}

} // verus!
