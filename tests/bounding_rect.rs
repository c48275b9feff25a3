use geo_generic_alg::bounding_rect_merge;
use geo_generic_alg::geometry::{Geometry, GeometryCollection};
use geo_generic_alg::line::Line;
use geo_generic_alg::line_string::LineString;
use geo_generic_alg::multi_line_string::MultiLineString;
use geo_generic_alg::multi_point::MultiPoint;
use geo_generic_alg::multi_polygon::MultiPolygon;
use geo_generic_alg::point::Point;
use geo_generic_alg::polygon::Polygon;
use geo_generic_alg::{BoundingRect, Coord, Rect};

fn coord<T>(x: T, y: T) -> Coord<T> {
    Coord { x, y }
}

fn line_string(pairs: &[(f64, f64)]) -> LineString<f64> {
    LineString::new(pairs.iter().map(|&(x, y)| coord(x, y)).collect())
}

#[test]
fn empty_linestring_test() {
    let linestring: LineString<f32> = LineString::new(vec![]);
    let bounding_rect = linestring.bounding_rect();
    assert!(bounding_rect.is_none());
}

#[test]
fn linestring_one_point_test() {
    let linestring = line_string(&[(40.02f64, 116.34)]);
    let bounding_rect = Rect::new(coord(40.02f64, 116.34), coord(40.02, 116.34));
    assert_eq!(bounding_rect, linestring.bounding_rect().unwrap());
}

#[test]
fn linestring_test() {
    let linestring = line_string(&[(1., 1.), (2., -2.), (-3., -3.), (-4., 4.)]);
    let bounding_rect = Rect::new(coord(-4., -3.), coord(2., 4.));
    assert_eq!(bounding_rect, linestring.bounding_rect().unwrap());
}

#[test]
fn multilinestring_test() {
    let multiline = MultiLineString::new(vec![
        line_string(&[(1., 1.), (-40., 1.)]),
        line_string(&[(1., 1.), (50., 1.)]),
        line_string(&[(1., 1.), (1., -60.)]),
        line_string(&[(1., 1.), (1., 70.)]),
    ]);
    let bounding_rect = Rect::new(coord(-40., -60.), coord(50., 70.));
    assert_eq!(bounding_rect, multiline.bounding_rect().unwrap());
}

#[test]
fn multipoint_test() {
    let multipoint = MultiPoint::new(
        vec![(1., 1.), (2., -2.), (-3., -3.), (-4., 4.)]
            .into_iter()
            .map(|(x, y)| Point::new(x, y))
            .collect(),
    );
    let bounding_rect = Rect::new(coord(-4., -3.), coord(2., 4.));
    assert_eq!(bounding_rect, multipoint.bounding_rect().unwrap());
}

#[test]
fn polygon_test() {
    let linestring = line_string(&[(0., 0.), (5., 0.), (5., 6.), (0., 6.), (0., 0.)]);
    let line_bounding_rect = linestring.bounding_rect().unwrap();
    let poly = Polygon::new(linestring, Vec::new());
    assert_eq!(line_bounding_rect, poly.bounding_rect().unwrap());
}

#[test]
fn multipolygon_test() {
    let mpoly = MultiPolygon::new(vec![
        Polygon::new(line_string(&[(0., 0.), (50., 0.), (0., -70.), (0., 0.)]), vec![]),
        Polygon::new(line_string(&[(0., 0.), (5., 0.), (0., 80.), (0., 0.)]), vec![]),
        Polygon::new(line_string(&[(0., 0.), (-60., 0.), (0., 6.), (0., 0.)]), vec![]),
    ]);
    let bounding_rect = Rect::new(coord(-60., -70.), coord(50., 80.));
    assert_eq!(bounding_rect, mpoly.bounding_rect().unwrap());
}

#[test]
fn line_test() {
    let line1 = Line::new(coord(0., 1.), coord(2., 3.));
    let line2 = Line::new(coord(2., 3.), coord(0., 1.));
    assert_eq!(line1.bounding_rect(), Rect::new(coord(0., 1.), coord(2., 3.)));
    assert_eq!(line2.bounding_rect(), Rect::new(coord(0., 1.), coord(2., 3.)));
}

#[test]
fn bounding_rect_merge_test() {
    assert_eq!(
        bounding_rect_merge(
            Rect::new(coord(0., 0.), coord(1., 1.)),
            Rect::new(coord(1., 1.), coord(2., 2.)),
        ),
        Rect::new(coord(0., 0.), coord(2., 2.)),
    );
}

#[test]
fn point_bounding_rect_test() {
    assert_eq!(
        Some(Rect::new(coord(1., 2.), coord(1., 2.))),
        Point::new(1., 2.).bounding_rect(),
    );
}

#[test]
fn geometry_collection_bounding_rect_test() {
    assert_eq!(
        Some(Rect::new(coord(0., 0.), coord(1., 2.))),
        GeometryCollection::new_from(vec![
            Geometry::Point(Point::new(0., 0.)),
            Geometry::Point(Point::new(1., 2.)),
        ])
        .bounding_rect(),
    );
}
