//! Multi-polygons and the multi-polygon capability.
use crate::marker::{GeoTraitExtWithTypeMarker, MultiPolygonTraitExtMarker};
use crate::polygon::{Polygon, PolygonTrait, PolygonView};
use vstd::prelude::*;

verus! {

/// A collection of polygons.
#[derive(Clone, Debug, PartialEq)]
pub struct MultiPolygon<T>(pub Vec<Polygon<T>>);

impl<T> MultiPolygon<T> {
    /// The collection of `polygons`, in order.
    pub fn new(polygons: Vec<Polygon<T>>) -> (r: MultiPolygon<T>)
        ensures
            r.0@ == polygons@,
    {
        MultiPolygon(polygons)
    }
}

/// Read access to a multi-polygon: a count of polygons and indexed access.
pub trait MultiPolygonTrait {
    /// The component type.
    type T;

    /// The type of its polygons.
    type PolygonType: PolygonTrait<T = Self::T>;

    /// The rings of each polygon, in order.
    spec fn polygons_view(&self) -> Seq<PolygonView<Self::T>>;

    /// The number of polygons.
    fn num_polygons(&self) -> (r: usize)
        ensures
            r == self.polygons_view().len(),
    ;

    /// The polygon at index `i`, which must be in range.
    fn polygon_unchecked(&self, i: usize) -> (r: &Self::PolygonType)
        requires
            i < self.polygons_view().len(),
        ensures
            r.polygon_view() == self.polygons_view()[i as int],
    ;

    /// The polygon at index `i`, or `None` when `i` is out of range.
    fn polygon(&self, i: usize) -> (r: Option<&Self::PolygonType>)
        ensures
            i < self.polygons_view().len() ==> r is Some && r->0.polygon_view()
                == self.polygons_view()[i as int],
            i >= self.polygons_view().len() ==> r is None,
    {
        if i >= self.num_polygons() {
            None
        } else {
            Some(self.polygon_unchecked(i))
        }
    }
}

/// A multi-polygon capability that carries the multi-polygon tag.
pub trait MultiPolygonTraitExt<T>: MultiPolygonTrait<T = T> + GeoTraitExtWithTypeMarker<
    Marker = MultiPolygonTraitExtMarker,
> {

}

impl<T: Copy> MultiPolygonTrait for MultiPolygon<T> {
    type T = T;

    type PolygonType = Polygon<T>;

    open spec fn polygons_view(&self) -> Seq<PolygonView<T>> {
        self.0@.map_values(|p: Polygon<T>| p.polygon_view())
    }

    fn num_polygons(&self) -> (r: usize) {
        self.0.len()
    }

    fn polygon_unchecked(&self, i: usize) -> (r: &Polygon<T>) {
        &self.0[i]
    }
}

impl<T> GeoTraitExtWithTypeMarker for MultiPolygon<T> {
    type Marker = MultiPolygonTraitExtMarker;
}

impl<T: Copy> MultiPolygonTraitExt<T> for MultiPolygon<T> {

}

} // verus!
