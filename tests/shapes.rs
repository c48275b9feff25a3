use geo_generic_alg::coord::CoordTrait;
use geo_generic_alg::geometry::{
    Geometry, GeometryCollection, GeometryCollectionTrait, GeometryTrait, GeometryType,
};
use geo_generic_alg::line::{Line, LineTrait};
use geo_generic_alg::line_string::{LineString, LineStringTrait, LineStringTraitExt};
use geo_generic_alg::multi_line_string::{
    MultiLineString, MultiLineStringTrait, MultiLineStringTraitExt,
};
use geo_generic_alg::multi_point::{MultiPoint, MultiPointTrait, MultiPointTraitExt};
use geo_generic_alg::multi_polygon::{MultiPolygon, MultiPolygonTrait};
use geo_generic_alg::point::{Point, PointTrait};
use geo_generic_alg::polygon::{Polygon, PolygonTrait};
use geo_generic_alg::rect::RectTraitExt;
use geo_generic_alg::triangle::{Triangle, TriangleTrait, TriangleTraitExt};
use geo_generic_alg::{Coord, Rect};

fn c(x: i64, y: i64) -> Coord<i64> {
    Coord { x, y }
}

fn path(pairs: &[(i64, i64)]) -> LineString<i64> {
    LineString::new(pairs.iter().map(|&(x, y)| c(x, y)).collect())
}

#[test]
fn coord_components() {
    let p = c(4, -6);
    assert_eq!(p.x(), 4);
    assert_eq!(p.y(), -6);
    assert_eq!(p.x_y(), (4, -6));
    assert_eq!(p.nth(0), Some(4));
    assert_eq!(p.nth(1), Some(-6));
    assert_eq!(p.nth(2), None);
    assert_eq!(p.nth_or_panic(1), -6);
    assert_eq!((1.5f64, 2.5f64).nth(0), Some(1.5));
    assert_eq!((1.5f64, 2.5f64).to_coord(), Coord { x: 1.5, y: 2.5 });
}

#[test]
fn rect_new_orders_corners() {
    assert_eq!(Rect::new(c(2, 3), c(0, 1)), Rect { min: c(0, 1), max: c(2, 3) });
    assert_eq!(Rect::new(c(0, 3), c(2, 1)), Rect { min: c(0, 1), max: c(2, 3) });
    let r = Rect::new(c(0, 3), c(2, 1));
    assert_eq!(r.min(), c(0, 1));
    assert_eq!(r.max(), c(2, 3));
}

#[test]
fn rect_validity() {
    assert!(Rect { min: c(0, 0), max: c(1, 1) }.has_valid_bounds());
    assert!(Rect { min: c(1, 1), max: c(1, 1) }.has_valid_bounds());
    assert!(!Rect { min: c(2, 0), max: c(1, 1) }.has_valid_bounds());
    assert!(!Rect { min: c(0, 2), max: c(1, 1) }.has_valid_bounds());
}

#[test]
fn rect_containment() {
    let r = Rect { min: c(0, 0), max: c(4, 4) };
    assert!(r.contains_point(&c(4, 0)));
    assert!(r.contains_point(&c(2, 3)));
    assert!(!r.contains_point(&c(5, 3)));
    assert!(!r.contains_point(&c(2, -1)));
    assert!(r.contains_rect(&Rect { min: c(1, 1), max: c(4, 2) }));
    assert!(!r.contains_rect(&Rect { min: c(1, 1), max: c(5, 2) }));
}

#[test]
fn rect_outline() {
    let r = Rect { min: c(0, 1), max: c(2, 3) };
    assert_eq!(r.to_line_string().0, vec![c(0, 1), c(0, 3), c(2, 3), c(2, 1), c(0, 1)]);
    let poly = r.to_polygon();
    assert_eq!(poly.exterior.0, vec![c(0, 1), c(0, 3), c(2, 3), c(2, 1), c(0, 1)]);
    assert!(poly.interiors.is_empty());
    assert_eq!(
        r.to_lines(),
        [
            Line::new(c(2, 1), c(2, 3)),
            Line::new(c(2, 3), c(0, 3)),
            Line::new(c(0, 3), c(0, 1)),
            Line::new(c(0, 1), c(2, 1)),
        ],
    );
}

#[test]
fn line_string_access() {
    let ls = path(&[(0, 0), (1, 2), (3, 1)]);
    assert_eq!(ls.num_coords(), 3);
    assert_eq!(ls.coord(1), Some(c(1, 2)));
    assert_eq!(ls.coord(3), None);
    assert_eq!(ls.to_coords(), vec![c(0, 0), c(1, 2), c(3, 1)]);
}

#[test]
fn line_string_segments() {
    let ls = path(&[(0, 0), (1, 2), (3, 1)]);
    assert_eq!(ls.lines(), vec![Line::new(c(0, 0), c(1, 2)), Line::new(c(1, 2), c(3, 1))]);
    assert_eq!(ls.rev_lines(), vec![Line::new(c(3, 1), c(1, 2)), Line::new(c(1, 2), c(0, 0))]);
    assert_eq!(ls.triangles(), vec![Triangle::new(c(0, 0), c(1, 2), c(3, 1))]);
    assert!(path(&[]).lines().is_empty());
    assert!(path(&[(5, 5)]).rev_lines().is_empty());
    assert!(path(&[(5, 5), (6, 6)]).triangles().is_empty());
}

#[test]
fn line_string_closedness() {
    assert!(path(&[]).is_closed());
    assert!(path(&[(0, 0), (1, 0), (0, 0)]).is_closed());
    assert!(!path(&[(0, 0), (1, 0), (0, 1)]).is_closed());
}

#[test]
fn point_access() {
    assert_eq!(Point::new(3, 4).coord(), Some(c(3, 4)));
    assert_eq!(Point::<i64>::empty().coord(), None);
}

#[test]
fn line_and_triangle_access() {
    let l = Line::new(c(1, 2), c(3, 4));
    assert_eq!(l.coords(), [c(1, 2), c(3, 4)]);
    let t = Triangle::new(c(0, 0), c(2, 0), c(0, 2));
    assert_eq!(t.coords(), [c(0, 0), c(2, 0), c(0, 2)]);
    assert_eq!(
        t.to_lines(),
        [Line::new(c(0, 0), c(2, 0)), Line::new(c(2, 0), c(0, 2)), Line::new(c(0, 2), c(0, 0))],
    );
    assert_eq!(t.to_polygon().exterior.0, vec![c(0, 0), c(2, 0), c(0, 2), c(0, 0)]);
}

#[test]
fn polygon_access() {
    let poly = Polygon::new(path(&[(0, 0), (4, 0), (0, 4), (0, 0)]), vec![path(&[(1, 1), (2, 1), (1, 2), (1, 1)])]);
    assert_eq!(poly.exterior().map(|r| r.num_coords()), Some(4));
    assert_eq!(poly.num_interiors(), 1);
    assert_eq!(poly.interior(0).map(|r| r.num_coords()), Some(4));
    assert!(poly.interior(1).is_none());
}

#[test]
fn multi_shape_access() {
    let mp = MultiPoint::new(vec![Point::new(1, 1), Point::empty(), Point::new(2, 3)]);
    assert_eq!(mp.num_points(), 3);
    assert_eq!(mp.point(2).and_then(|p| p.coord()), Some(c(2, 3)));
    assert!(mp.point(3).is_none());
    assert_eq!(mp.to_coords(), vec![c(1, 1), c(2, 3)]);

    let ml = MultiLineString::new(vec![path(&[(0, 0), (1, 1)]), path(&[]), path(&[(2, 2)])]);
    assert_eq!(ml.num_line_strings(), 3);
    assert_eq!(ml.line_string(0).map(|ls| ls.num_coords()), Some(2));
    assert!(ml.line_string(3).is_none());
    assert_eq!(ml.to_coords(), vec![c(0, 0), c(1, 1), c(2, 2)]);

    let my = MultiPolygon::new(vec![Polygon::new(path(&[(0, 0), (1, 0), (0, 0)]), vec![])]);
    assert_eq!(my.num_polygons(), 1);
    assert!(my.polygon(0).is_some());
    assert!(my.polygon(1).is_none());
}

#[test]
fn geometry_dispatch() {
    let gc = GeometryCollection::new_from(vec![
        Geometry::Point(Point::new(1, 2)),
        Geometry::LineString(path(&[(0, 0), (1, 1)])),
    ]);
    assert_eq!(gc.num_geometries(), 2);
    assert!(gc.geometry(2).is_none());
    match gc.geometry(0).map(|g| g.as_type()) {
        Some(GeometryType::Point(p)) => assert_eq!(p.coord(), Some(c(1, 2))),
        _ => panic!("expected a point"),
    }
    match gc.geometry(1).map(|g| g.as_type()) {
        Some(GeometryType::LineString(ls)) => assert_eq!(ls.num_coords(), 2),
        _ => panic!("expected a line string"),
    }
    let nested = Geometry::GeometryCollection(gc);
    match nested.as_type() {
        GeometryType::GeometryCollection(inner) => assert_eq!(inner.num_geometries(), 2),
        _ => panic!("expected a collection"),
    }
}
