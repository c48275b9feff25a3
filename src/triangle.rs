//! Triangles and the triangle capability.
use crate::coord::{Coord, CoordTrait};
use crate::line::Line;
use crate::line_string::LineString;
use crate::polygon::Polygon;
use crate::marker::{GeoTraitExtWithTypeMarker, TriangleTraitExtMarker};
use vstd::prelude::*;

verus! {

/// A triangle given by its three vertices.
#[derive(Clone, Copy, Debug, PartialEq)]
pub struct Triangle<T>(pub Coord<T>, pub Coord<T>, pub Coord<T>);

impl<T> Triangle<T> {
    /// The triangle with vertices `v1`, `v2`, `v3`.
    pub fn new(v1: Coord<T>, v2: Coord<T>, v3: Coord<T>) -> (r: Triangle<T>)
        ensures
            r == Triangle(v1, v2, v3),
    {
        Triangle(v1, v2, v3)
    }
}

/// Read access to a triangle: exactly three coordinates.
pub trait TriangleTrait {
    /// The component type.
    type T;

    /// The type of its vertices.
    type CoordType: CoordTrait<T = Self::T>;

    /// The triangle this value stands for.
    spec fn triangle_view(&self) -> Triangle<Self::T>;

    /// The first vertex.
    fn first(&self) -> (r: Self::CoordType)
        ensures
            r.coord_view() == self.triangle_view().0,
    ;

    /// The second vertex.
    fn second(&self) -> (r: Self::CoordType)
        ensures
            r.coord_view() == self.triangle_view().1,
    ;

    /// The third vertex.
    fn third(&self) -> (r: Self::CoordType)
        ensures
            r.coord_view() == self.triangle_view().2,
    ;

    /// The three vertices, in order.
    fn coords(&self) -> (r: [Self::CoordType; 3])
        ensures
            r@[0].coord_view() == self.triangle_view().0,
            r@[1].coord_view() == self.triangle_view().1,
            r@[2].coord_view() == self.triangle_view().2,
    {
        [self.first(), self.second(), self.third()]
    }
}

/// The three sides of `t`, each from one vertex to the next.
pub open spec fn triangle_sides<T>(t: Triangle<T>) -> Seq<Line<T>> {
    seq![
        Line { start: t.0, end: t.1 },
        Line { start: t.1, end: t.2 },
        Line { start: t.2, end: t.0 },
    ]
}

/// A triangle capability that carries the triangle tag.
pub trait TriangleTraitExt<T: Copy>: TriangleTrait<T = T> + GeoTraitExtWithTypeMarker<
    Marker = TriangleTraitExtMarker,
> {
    /// The three sides of the triangle.
    fn to_lines(&self) -> (r: [Line<T>; 3])
        ensures
            r@ == triangle_sides(self.triangle_view()),
    {
        let a = self.first().to_coord();
        let b = self.second().to_coord();
        let c = self.third().to_coord();
        let sides = [Line { start: a, end: b }, Line { start: b, end: c }, Line { start: c, end: a }];
        proof {
            assert(sides@ =~= triangle_sides(self.triangle_view()));
        }
        sides
    }

    /// The triangle as a polygon without holes, its ring closed.
    fn to_polygon(&self) -> (r: Polygon<T>)
        ensures
            r.exterior.0@ == seq![
                self.triangle_view().0,
                self.triangle_view().1,
                self.triangle_view().2,
                self.triangle_view().0,
            ],
            r.interiors@.len() == 0,
    {
        let a = self.first().to_coord();
        let b = self.second().to_coord();
        let c = self.third().to_coord();
        let ring = vec![a, b, c, a];
        proof {
            assert(ring@ =~= seq![a, b, c, a]);
        }
        Polygon { exterior: LineString(ring), interiors: Vec::new() }
    }
}

impl<T: Copy> TriangleTrait for Triangle<T> {
    type T = T;

    type CoordType = Coord<T>;

    open spec fn triangle_view(&self) -> Triangle<T> {
        *self
    }

    fn first(&self) -> (r: Coord<T>) {
        self.0
    }

    fn second(&self) -> (r: Coord<T>) {
        self.1
    }

    fn third(&self) -> (r: Coord<T>) {
        self.2
    }
}

impl<T> GeoTraitExtWithTypeMarker for Triangle<T> {
    type Marker = TriangleTraitExtMarker;
}

impl<T: Copy> TriangleTraitExt<T> for Triangle<T> {

}

} // verus!
