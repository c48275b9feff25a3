//! Multi-line-strings and the multi-line-string capability.
use crate::coord::Coord;
use crate::coord::CoordTrait;
use crate::line_string::{LineString, LineStringTrait};
use crate::marker::{GeoTraitExtWithTypeMarker, MultiLineStringTraitExtMarker};
use vstd::prelude::*;

verus! {

/// A collection of line strings.
#[derive(Clone, Debug, PartialEq)]
pub struct MultiLineString<T>(pub Vec<LineString<T>>);

impl<T> MultiLineString<T> {
    /// The collection of `line_strings`, in order.
    pub fn new(line_strings: Vec<LineString<T>>) -> (r: MultiLineString<T>)
        ensures
            r.0@ == line_strings@,
    {
        MultiLineString(line_strings)
    }
}

/// Read access to a multi-line-string: a count and indexed access.
pub trait MultiLineStringTrait {
    /// The component type.
    type T;

    /// The type of its line strings.
    type LineStringType: LineStringTrait<T = Self::T>;

    /// The coordinates of each line string, in order.
    spec fn line_strings_view(&self) -> Seq<Seq<Coord<Self::T>>>;

    /// The number of line strings.
    fn num_line_strings(&self) -> (r: usize)
        ensures
            r == self.line_strings_view().len(),
    ;

    /// The line string at index `i`, which must be in range.
    fn line_string_unchecked(&self, i: usize) -> (r: &Self::LineStringType)
        requires
            i < self.line_strings_view().len(),
        ensures
            r.coords_view() == self.line_strings_view()[i as int],
    ;

    /// The line string at index `i`, or `None` when `i` is out of range.
    fn line_string(&self, i: usize) -> (r: Option<&Self::LineStringType>)
        ensures
            i < self.line_strings_view().len() ==> r is Some && r->0.coords_view()
                == self.line_strings_view()[i as int],
            i >= self.line_strings_view().len() ==> r is None,
    {
        if i >= self.num_line_strings() {
            None
        } else {
            Some(self.line_string_unchecked(i))
        }
    }
}

/// A multi-line-string capability that carries the multi-line-string tag.
pub trait MultiLineStringTraitExt<T>: MultiLineStringTrait<T = T> + GeoTraitExtWithTypeMarker<
    Marker = MultiLineStringTraitExtMarker,
> {
    /// The coordinates of all its line strings, one line string after the
    /// other, as plain `Coord`s.
    fn to_coords(&self) -> (r: Vec<Coord<T>>)
        ensures
            r@ == self.line_strings_view().flatten(),
    {
        let n = self.num_line_strings();
        let mut out: Vec<Coord<T>> = Vec::new();
        let mut i: usize = 0;
        while i < n
            invariant
                n == self.line_strings_view().len(),
                i <= n,
                out@ == self.line_strings_view().subrange(0, i as int).flatten(),
            decreases n - i,
        {
            let ghost before = out@;
            let ls = self.line_string_unchecked(i);
            let m = ls.num_coords();
            let mut j: usize = 0;
            while j < m
                invariant
                    m == ls.coords_view().len(),
                    j <= m,
                    out@ == before + ls.coords_view().subrange(0, j as int),
                decreases m - j,
            {
                out.push(ls.coord_unchecked(j).to_coord());
                proof {
                    assert(ls.coords_view().subrange(0, j + 1) =~= ls.coords_view().subrange(
                        0,
                        j as int,
                    ).push(ls.coords_view()[j as int]));
                    assert(out@ =~= before + ls.coords_view().subrange(0, j + 1));
                }
                j += 1;
            }
            proof {
                let done = self.line_strings_view().subrange(0, i as int);
                assert(ls.coords_view().subrange(0, m as int) =~= ls.coords_view());
                assert(self.line_strings_view().subrange(0, i + 1) =~= done.push(
                    ls.coords_view(),
                ));
                done.lemma_flatten_push(ls.coords_view());
            }
            i += 1;
        }
        proof {
            assert(self.line_strings_view().subrange(0, n as int) =~= self.line_strings_view());
        }
        out
    }
}

impl<T: Copy> MultiLineStringTrait for MultiLineString<T> {
    type T = T;

    type LineStringType = LineString<T>;

    open spec fn line_strings_view(&self) -> Seq<Seq<Coord<T>>> {
        self.0@.map_values(|ls: LineString<T>| ls.0@)
    }

    fn num_line_strings(&self) -> (r: usize) {
        self.0.len()
    }

    fn line_string_unchecked(&self, i: usize) -> (r: &LineString<T>) {
        &self.0[i]
    }
}

impl<T> GeoTraitExtWithTypeMarker for MultiLineString<T> {
    type Marker = MultiLineStringTraitExtMarker;
}

impl<T: Copy> MultiLineStringTraitExt<T> for MultiLineString<T> {

}

} // verus!
