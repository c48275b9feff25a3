use geo_generic_alg::bounding_rect_merge;
use geo_generic_alg::geometry::{Geometry, GeometryCollection};
use geo_generic_alg::line::Line;
use geo_generic_alg::line_string::LineString;
use geo_generic_alg::multi_line_string::MultiLineString;
use geo_generic_alg::multi_point::MultiPoint;
use geo_generic_alg::multi_polygon::MultiPolygon;
use geo_generic_alg::point::Point;
use geo_generic_alg::polygon::Polygon;
use geo_generic_alg::triangle::Triangle;
use geo_generic_alg::{BoundingRect, Coord, Rect};

fn c(x: i64, y: i64) -> Coord<i64> {
    Coord { x, y }
}

fn rect(min: (i64, i64), max: (i64, i64)) -> Rect<i64> {
    Rect { min: c(min.0, min.1), max: c(max.0, max.1) }
}

fn path(pairs: &[(i64, i64)]) -> LineString<i64> {
    LineString::new(pairs.iter().map(|&(x, y)| c(x, y)).collect())
}

#[test]
fn line_string_extent_of_many_coordinates() {
    let ls = path(&[(3, -1), (0, 5), (-2, 2), (1, 1)]);
    assert_eq!(ls.bounding_rect(), Some(rect((-2, -1), (3, 5))));
}

#[test]
fn line_string_extent_of_one_coordinate() {
    let ls = path(&[(7, -9)]);
    assert_eq!(ls.bounding_rect(), Some(rect((7, -9), (7, -9))));
}

#[test]
fn line_string_extent_of_no_coordinate() {
    assert_eq!(path(&[]).bounding_rect(), None);
}

#[test]
fn merge_is_commutative_on_values() {
    let a = rect((0, 5), (4, 9));
    let b = rect((-3, 6), (2, 12));
    assert_eq!(bounding_rect_merge(a, b), bounding_rect_merge(b, a));
    assert_eq!(bounding_rect_merge(a, b), rect((-3, 5), (4, 12)));
}

#[test]
fn merge_is_associative_on_values() {
    let a = rect((0, 0), (1, 1));
    let b = rect((-5, 2), (0, 3));
    let d = rect((4, -7), (6, 0));
    assert_eq!(
        bounding_rect_merge(bounding_rect_merge(a, b), d),
        bounding_rect_merge(a, bounding_rect_merge(b, d)),
    );
    assert_eq!(bounding_rect_merge(a, bounding_rect_merge(b, d)), rect((-5, -7), (6, 3)));
}

#[test]
fn merge_of_nan_keeps_second_operand() {
    let a = Rect { min: Coord { x: f64::NAN, y: 0.0 }, max: Coord { x: f64::NAN, y: 1.0 } };
    let b = Rect { min: Coord { x: 1.0, y: -1.0 }, max: Coord { x: 2.0, y: 3.0 } };
    let r = bounding_rect_merge(a, b);
    assert_eq!(r.min.x, 1.0);
    assert_eq!(r.max.x, 2.0);
    assert_eq!(r.min.y, -1.0);
    assert_eq!(r.max.y, 3.0);
}

#[test]
fn collection_of_empty_members_has_no_rect() {
    let gc = GeometryCollection::new_from(vec![
        Geometry::Point(Point::empty()),
        Geometry::LineString(path(&[])),
        Geometry::MultiPoint(MultiPoint::new(vec![Point::empty()])),
        Geometry::GeometryCollection(GeometryCollection::new_from(vec![])),
    ]);
    assert_eq!(gc.bounding_rect(), None);
}

#[test]
fn empty_collection_has_no_rect() {
    let gc: GeometryCollection<i64> = GeometryCollection::new_from(vec![]);
    assert_eq!(gc.bounding_rect(), None);
}

#[test]
fn collection_of_one_nonempty_member_keeps_its_rect() {
    let member = path(&[(1, 2), (3, -4)]);
    let expected = member.bounding_rect();
    let gc = GeometryCollection::new_from(vec![
        Geometry::Point(Point::empty()),
        Geometry::LineString(member),
        Geometry::MultiLineString(MultiLineString::new(vec![])),
    ]);
    assert_eq!(gc.bounding_rect(), expected);
    assert_eq!(expected, Some(rect((1, -4), (3, 2))));
}

#[test]
fn rect_bounds_itself() {
    let r = rect((-1, -2), (3, 4));
    assert_eq!(r.bounding_rect(), r);
}

#[test]
fn hand_built_invalid_rect_bounds_itself() {
    let r = rect((5, 5), (0, 0));
    assert_eq!(r.bounding_rect(), r);
}

#[test]
fn triangle_scenario() {
    let t = Triangle::new(c(0, 0), c(1, 0), c(0, 1));
    assert_eq!(t.bounding_rect(), rect((0, 0), (1, 1)));
}

#[test]
fn triangle_bounds_with_float_vertices() {
    let t = Triangle::new(
        Coord { x: 0.0, y: 0.0 },
        Coord { x: 1.0, y: 0.0 },
        Coord { x: 0.0, y: 1.0 },
    );
    assert_eq!(
        t.bounding_rect(),
        Rect { min: Coord { x: 0.0, y: 0.0 }, max: Coord { x: 1.0, y: 1.0 } },
    );
}

#[test]
fn coordinate_bounds_itself_as_degenerate_rect() {
    assert_eq!(c(3, -8).bounding_rect(), rect((3, -8), (3, -8)));
    assert_eq!((2i64, 9i64).bounding_rect(), rect((2, 9), (2, 9)));
}

#[test]
fn empty_point_has_no_rect() {
    let p: Point<i64> = Point::empty();
    assert_eq!(p.bounding_rect(), None);
}

#[test]
fn line_bounds_are_order_independent() {
    let l1 = Line::new(c(5, -1), c(2, 7));
    let l2 = Line::new(c(2, 7), c(5, -1));
    assert_eq!(l1.bounding_rect(), rect((2, -1), (5, 7)));
    assert_eq!(l2.bounding_rect(), l1.bounding_rect());
}

#[test]
fn multi_point_skips_empty_points() {
    let mp = MultiPoint::new(vec![Point::empty(), Point::new(4, 4), Point::empty(), Point::new(-1, 6)]);
    assert_eq!(mp.bounding_rect(), Some(rect((-1, 4), (4, 6))));
    let none: MultiPoint<i64> = MultiPoint::new(vec![]);
    assert_eq!(none.bounding_rect(), None);
}

#[test]
fn polygon_ignores_interior_rings() {
    let hole = path(&[(100, 100), (101, 100), (101, 101), (100, 100)]);
    let poly = Polygon::new(path(&[(0, 0), (4, 0), (4, 3), (0, 0)]), vec![hole]);
    assert_eq!(poly.bounding_rect(), Some(rect((0, 0), (4, 3))));
}

#[test]
fn polygon_with_empty_exterior_has_no_rect() {
    let poly = Polygon::new(path(&[]), vec![path(&[(1, 1), (2, 2), (1, 1)])]);
    assert_eq!(poly.bounding_rect(), None);
}

#[test]
fn multi_polygon_uses_every_exterior() {
    let mp = MultiPolygon::new(vec![
        Polygon::new(path(&[(0, 0), (2, 0), (0, 2), (0, 0)]), vec![]),
        Polygon::new(path(&[]), vec![]),
        Polygon::new(path(&[(-3, 5), (-1, 5), (-3, 9), (-3, 5)]), vec![]),
    ]);
    assert_eq!(mp.bounding_rect(), Some(rect((-3, 0), (2, 9))));
    let none: MultiPolygon<i64> = MultiPolygon::new(vec![]);
    assert_eq!(none.bounding_rect(), None);
}

#[test]
fn multi_line_string_of_empty_line_strings_has_no_rect() {
    let ml = MultiLineString::new(vec![path(&[]), path(&[])]);
    assert_eq!(ml.bounding_rect(), None);
}

#[test]
fn geometry_follows_the_case_it_holds() {
    assert_eq!(Geometry::Rect(rect((1, 1), (2, 2))).bounding_rect(), Some(rect((1, 1), (2, 2))));
    assert_eq!(Geometry::Line(Line::new(c(3, 0), c(0, 3))).bounding_rect(), Some(rect((0, 0), (3, 3))));
    assert_eq!(
        Geometry::Triangle(Triangle::new(c(0, 0), c(2, 1), c(1, -1))).bounding_rect(),
        Some(rect((0, -1), (2, 1))),
    );
    assert_eq!(Geometry::Point(Point::new(8, 9)).bounding_rect(), Some(rect((8, 9), (8, 9))));
    assert_eq!(Geometry::<i64>::Point(Point::empty()).bounding_rect(), None);
}

#[test]
fn nested_collections_merge_from_left_to_right() {
    let inner = GeometryCollection::new_from(vec![
        Geometry::Point(Point::new(10, -10)),
        Geometry::Rect(rect((0, 0), (1, 1))),
    ]);
    let outer = GeometryCollection::new_from(vec![
        Geometry::Point(Point::new(-2, 3)),
        Geometry::GeometryCollection(inner),
        Geometry::Polygon(Polygon::new(path(&[]), vec![])),
    ]);
    assert_eq!(outer.bounding_rect(), Some(rect((-2, -10), (10, 3))));
}

#[test]
fn nan_coordinate_leaves_running_rect_unchanged() {
    let ls = LineString::new(vec![
        Coord { x: 1.0, y: 1.0 },
        Coord { x: f64::NAN, y: 5.0 },
        Coord { x: 3.0, y: 2.0 },
    ]);
    let r = ls.bounding_rect().unwrap();
    assert_eq!(r.min, Coord { x: 1.0, y: 1.0 });
    assert_eq!(r.max, Coord { x: 3.0, y: 5.0 });
}
