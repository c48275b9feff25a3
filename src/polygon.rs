//! Polygons and the polygon capability.
use crate::coord::Coord;
use crate::line_string::{LineString, LineStringTrait};
use crate::marker::{GeoTraitExtWithTypeMarker, PolygonTraitExtMarker};
use vstd::prelude::*;

verus! {

/// What a polygon holds: an exterior ring, if any, and its interior rings.
pub struct PolygonView<T> {
    pub exterior: Option<Seq<Coord<T>>>,
    pub interiors: Seq<Seq<Coord<T>>>,
}

/// A polygon: an exterior ring and zero or more interior rings (holes).
#[derive(Clone, Debug, PartialEq)]
pub struct Polygon<T> {
    pub exterior: LineString<T>,
    pub interiors: Vec<LineString<T>>,
}

impl<T> Polygon<T> {
    /// The polygon bounded by `exterior`, with holes `interiors`.
    pub fn new(exterior: LineString<T>, interiors: Vec<LineString<T>>) -> (r: Polygon<T>)
        ensures
            r.exterior == exterior,
            r.interiors@ == interiors@,
    {
        Polygon { exterior, interiors }
    }
}

/// Read access to a polygon: its exterior ring and indexed interior rings.
pub trait PolygonTrait {
    /// The component type.
    type T;

    /// The type of its rings.
    type RingType: LineStringTrait<T = Self::T>;

    /// The rings this value holds.
    spec fn polygon_view(&self) -> PolygonView<Self::T>;

    /// The exterior ring, `None` for a polygon without one.
    fn exterior(&self) -> (r: Option<&Self::RingType>)
        ensures
            match r {
                Some(ring) => self.polygon_view().exterior == Some(ring.coords_view()),
                None => self.polygon_view().exterior is None,
            },
    ;

    /// The number of interior rings.
    fn num_interiors(&self) -> (r: usize)
        ensures
            r == self.polygon_view().interiors.len(),
    ;

    /// The interior ring at index `i`, which must be in range.
    fn interior_unchecked(&self, i: usize) -> (r: &Self::RingType)
        requires
            i < self.polygon_view().interiors.len(),
        ensures
            r.coords_view() == self.polygon_view().interiors[i as int],
    ;

    /// The interior ring at index `i`, or `None` when `i` is out of range.
    fn interior(&self, i: usize) -> (r: Option<&Self::RingType>)
        ensures
            i < self.polygon_view().interiors.len() ==> r is Some && r->0.coords_view()
                == self.polygon_view().interiors[i as int],
            i >= self.polygon_view().interiors.len() ==> r is None,
    {
        if i >= self.num_interiors() {
            None
        } else {
            Some(self.interior_unchecked(i))
        }
    }
}

/// A polygon capability that carries the polygon tag.
pub trait PolygonTraitExt<T>: PolygonTrait<T = T> + GeoTraitExtWithTypeMarker<
    Marker = PolygonTraitExtMarker,
> {

}

impl<T: Copy> PolygonTrait for Polygon<T> {
    type T = T;

    type RingType = LineString<T>;

    open spec fn polygon_view(&self) -> PolygonView<T> {
        PolygonView {
            exterior: Some(self.exterior.0@),
            interiors: self.interiors@.map_values(|ring: LineString<T>| ring.0@),
        }
    }

    fn exterior(&self) -> (r: Option<&LineString<T>>) {
        Some(&self.exterior)
    }

    fn num_interiors(&self) -> (r: usize) {
        self.interiors.len()
    }

    fn interior_unchecked(&self, i: usize) -> (r: &LineString<T>) {
        &self.interiors[i]
    }
}

impl<T> GeoTraitExtWithTypeMarker for Polygon<T> {
    type Marker = PolygonTraitExtMarker;
}

impl<T: Copy> PolygonTraitExt<T> for Polygon<T> {

}

} // verus!
