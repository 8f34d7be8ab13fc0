use geo_conversion::conversion::{
    create_geo_coordinate, create_geo_geometry_collection, create_geo_line_string,
    create_geo_multi_line_string, create_geo_multi_point, create_geo_multi_polygon,
    create_geo_point, create_geo_polygon, create_line_string_type, create_multi_line_string_type,
    create_multi_polygon_type, create_point_type, create_polygon_type,
};
use geo_conversion::flat::{Geometry as FlatGeometry, Value};
use geo_conversion::geometry::{
    Coord, Geometry, LineString, MultiLineString, MultiPoint, MultiPolygon, Point, Polygon,
};

fn line(points: &[(f64, f64)]) -> LineString<f64> {
    LineString(points.iter().map(|&(x, y)| Coord { x, y }).collect())
}

fn flat_line(points: &[(f64, f64)]) -> Vec<Vec<f64>> {
    points.iter().map(|&(x, y)| vec![x, y]).collect()
}

fn unit_square() -> Vec<(f64, f64)> {
    vec![(0.0, 0.0), (1.0, 0.0), (1.0, 1.0), (0.0, 0.0)]
}

fn small_hole() -> Vec<(f64, f64)> {
    vec![(0.2, 0.2), (0.3, 0.2), (0.3, 0.3), (0.2, 0.2)]
}

#[test]
fn encode_point() {
    assert_eq!(create_point_type(&Point::new(1.5, -2.0)), vec![1.5, -2.0]);
}

#[test]
fn point_accessors() {
    let p = Point::new(3.0, 4.0);
    assert_eq!(p.x(), 3.0);
    assert_eq!(p.y(), 4.0);
}

#[test]
fn encode_line_string_keeps_order() {
    let ls = line(&[(0.0, 0.0), (1.0, 1.0), (2.0, 2.0)]);
    assert_eq!(
        create_line_string_type(&ls),
        vec![vec![0.0, 0.0], vec![1.0, 1.0], vec![2.0, 2.0]]
    );
}

#[test]
fn encode_permuted_line_string_permutes_output() {
    let ls = line(&[(2.0, 2.0), (0.0, 0.0), (1.0, 1.0)]);
    assert_eq!(
        create_line_string_type(&ls),
        vec![vec![2.0, 2.0], vec![0.0, 0.0], vec![1.0, 1.0]]
    );
}

#[test]
fn encode_empty_line_string() {
    let ls: LineString<f64> = LineString(vec![]);
    assert!(create_line_string_type(&ls).is_empty());
}

#[test]
fn encode_multi_line_string() {
    let m = MultiLineString(vec![line(&[(0.0, 1.0), (2.0, 3.0)]), line(&[(4.0, 5.0)])]);
    assert_eq!(
        create_multi_line_string_type(&m),
        vec![vec![vec![0.0, 1.0], vec![2.0, 3.0]], vec![vec![4.0, 5.0]]]
    );
}

#[test]
fn encode_polygon_with_hole() {
    let p = Polygon::new(line(&unit_square()), vec![line(&small_hole())]);
    let encoded = create_polygon_type(&p);
    assert_eq!(encoded.len(), 2);
    assert_eq!(encoded[0], flat_line(&unit_square()));
    assert_eq!(encoded[1], flat_line(&small_hole()));
}

#[test]
fn decode_polygon_with_hole() {
    let flat = vec![flat_line(&unit_square()), flat_line(&small_hole())];
    let p: Polygon<f64> = create_geo_polygon(&flat);
    assert_eq!(p.exterior(), &line(&unit_square()));
    assert_eq!(p.interiors(), &[line(&small_hole())][..]);
}

#[test]
fn encode_polygon_without_holes() {
    let p = Polygon::new(line(&unit_square()), vec![]);
    assert_eq!(create_polygon_type(&p), vec![flat_line(&unit_square())]);
}

#[test]
fn decode_polygon_single_ring() {
    let p = create_geo_polygon(&vec![flat_line(&unit_square())]);
    assert_eq!(p.exterior(), &line(&unit_square()));
    assert!(p.interiors().is_empty());
}

#[test]
fn decode_empty_polygon() {
    let flat: Vec<Vec<Vec<f64>>> = vec![];
    let p = create_geo_polygon(&flat);
    assert!(p.exterior().0.is_empty());
    assert!(p.interiors().is_empty());
}

#[test]
fn decode_polygon_keeps_hole_order() {
    let flat = vec![
        flat_line(&unit_square()),
        flat_line(&[(0.1, 0.1), (0.2, 0.1), (0.1, 0.1)]),
        flat_line(&[(0.5, 0.5), (0.6, 0.5), (0.5, 0.5)]),
    ];
    let p = create_geo_polygon(&flat);
    assert_eq!(p.interiors().len(), 2);
    assert_eq!(p.interiors()[0], line(&[(0.1, 0.1), (0.2, 0.1), (0.1, 0.1)]));
    assert_eq!(p.interiors()[1], line(&[(0.5, 0.5), (0.6, 0.5), (0.5, 0.5)]));
}

#[test]
fn encode_multi_polygon() {
    let a = Polygon::new(line(&unit_square()), vec![line(&small_hole())]);
    let b = Polygon::new(line(&[(5.0, 5.0), (6.0, 5.0), (5.0, 5.0)]), vec![]);
    let encoded = create_multi_polygon_type(&MultiPolygon(vec![a, b]));
    assert_eq!(
        encoded,
        vec![
            vec![flat_line(&unit_square()), flat_line(&small_hole())],
            vec![flat_line(&[(5.0, 5.0), (6.0, 5.0), (5.0, 5.0)])],
        ]
    );
}

#[test]
fn decode_coordinate() {
    assert_eq!(create_geo_coordinate(&vec![7.0, 8.0]), Coord { x: 7.0, y: 8.0 });
}

#[test]
fn decode_coordinate_ignores_extra_numbers() {
    assert_eq!(create_geo_coordinate(&vec![7.0, 8.0, 9.0]), Coord { x: 7.0, y: 8.0 });
}

#[test]
fn decode_point() {
    assert_eq!(create_geo_point(&vec![-1.0, 2.5]), Point::new(-1.0, 2.5));
}

#[test]
fn decode_multi_point() {
    let m = create_geo_multi_point(&[vec![1.0, 2.0], vec![3.0, 4.0]]);
    assert_eq!(m, MultiPoint(vec![Point::new(1.0, 2.0), Point::new(3.0, 4.0)]));
}

#[test]
fn decode_line_string() {
    let ls = create_geo_line_string(&flat_line(&[(0.0, 0.0), (1.0, 1.0), (2.0, 2.0)]));
    assert_eq!(ls, line(&[(0.0, 0.0), (1.0, 1.0), (2.0, 2.0)]));
}

#[test]
fn decode_empty_line_string() {
    let ls: LineString<f64> = create_geo_line_string(&vec![]);
    assert!(ls.0.is_empty());
}

#[test]
fn decode_multi_line_string() {
    let m = create_geo_multi_line_string(&[flat_line(&[(0.0, 1.0)]), flat_line(&[(2.0, 3.0), (4.0, 5.0)])]);
    assert_eq!(
        m,
        MultiLineString(vec![line(&[(0.0, 1.0)]), line(&[(2.0, 3.0), (4.0, 5.0)])])
    );
}

#[test]
fn decode_multi_polygon() {
    let m = create_geo_multi_polygon(&[
        vec![flat_line(&unit_square()), flat_line(&small_hole())],
        vec![],
    ]);
    assert_eq!(
        m,
        MultiPolygon(vec![
            Polygon::new(line(&unit_square()), vec![line(&small_hole())]),
            Polygon::new(LineString(vec![]), vec![]),
        ])
    );
}

#[test]
fn decode_geometry_collection() {
    let flat = vec![
        FlatGeometry::new(Value::Point(vec![1.0, 2.0])),
        FlatGeometry::new(Value::LineString(flat_line(&[(0.0, 0.0), (1.0, 1.0)]))),
    ];
    let c = create_geo_geometry_collection(&flat);
    assert_eq!(c.0.len(), 2);
    assert_eq!(c.0[0], Geometry::Point(Point::new(1.0, 2.0)));
    assert_eq!(c.0[1], Geometry::LineString(line(&[(0.0, 0.0), (1.0, 1.0)])));
}

#[test]
fn decode_nested_geometry_collection() {
    let inner = vec![
        FlatGeometry::new(Value::MultiPoint(vec![vec![3.0, 4.0]])),
        FlatGeometry::new(Value::Polygon(vec![flat_line(&unit_square())])),
    ];
    let flat = vec![
        FlatGeometry::new(Value::Point(vec![1.0, 2.0])),
        FlatGeometry::new(Value::GeometryCollection(inner)),
        FlatGeometry::new(Value::MultiLineString(vec![flat_line(&[(5.0, 6.0)])])),
        FlatGeometry::new(Value::MultiPolygon(vec![vec![flat_line(&small_hole())]])),
    ];
    let c = create_geo_geometry_collection(&flat);
    assert_eq!(c.0.len(), 4);
    assert_eq!(c.0[0], Geometry::Point(Point::new(1.0, 2.0)));
    match &c.0[1] {
        Geometry::GeometryCollection(nested) => {
            assert_eq!(nested.0.len(), 2);
            assert_eq!(
                nested.0[0],
                Geometry::MultiPoint(MultiPoint(vec![Point::new(3.0, 4.0)]))
            );
            assert_eq!(
                nested.0[1],
                Geometry::Polygon(Polygon::new(line(&unit_square()), vec![]))
            );
        }
        other => panic!("expected a nested collection, got {:?}", other),
    }
    assert_eq!(
        c.0[2],
        Geometry::MultiLineString(MultiLineString(vec![line(&[(5.0, 6.0)])]))
    );
    assert_eq!(
        c.0[3],
        Geometry::MultiPolygon(MultiPolygon(vec![Polygon::new(line(&small_hole()), vec![])]))
    );
}

#[test]
fn decode_empty_geometry_collection() {
    let flat: Vec<FlatGeometry<f64>> = vec![];
    assert!(create_geo_geometry_collection(&flat).0.is_empty());
}

#[test]
fn typed_round_trips() {
    let p = Point::new(0.25, -7.5);
    assert_eq!(create_geo_point(&create_point_type(&p)), p);

    let ls = line(&[(0.0, 0.0), (1.0, 2.0), (3.0, 4.0)]);
    assert_eq!(create_geo_line_string(&create_line_string_type(&ls)), ls);

    let mls = MultiLineString(vec![ls.clone(), line(&[(9.0, 9.0)])]);
    assert_eq!(
        create_geo_multi_line_string(&create_multi_line_string_type(&mls)),
        mls
    );

    let poly = Polygon::new(line(&unit_square()), vec![line(&small_hole())]);
    assert_eq!(create_geo_polygon(&create_polygon_type(&poly)), poly);

    let mp = MultiPolygon(vec![poly.clone(), Polygon::new(LineString(vec![]), vec![])]);
    assert_eq!(create_geo_multi_polygon(&create_multi_polygon_type(&mp)), mp);
}

#[test]
fn flat_round_trips() {
    let pt = vec![1.0, 2.0];
    assert_eq!(create_point_type(&create_geo_point(&pt)), pt);

    let ls = flat_line(&[(0.0, 0.0), (1.0, 1.0)]);
    assert_eq!(create_line_string_type(&create_geo_line_string(&ls)), ls);

    let mls = vec![ls.clone(), flat_line(&[(2.0, 3.0)])];
    assert_eq!(
        create_multi_line_string_type(&create_geo_multi_line_string(&mls)),
        mls
    );

    let poly = vec![flat_line(&unit_square()), flat_line(&small_hole())];
    assert_eq!(create_polygon_type(&create_geo_polygon(&poly)), poly);

    let mp = vec![poly.clone(), vec![flat_line(&[(4.0, 4.0)])]];
    assert_eq!(create_multi_polygon_type(&create_geo_multi_polygon(&mp)), mp);
}

#[test]
fn empty_polygon_does_not_round_trip_to_empty() {
    let flat: Vec<Vec<Vec<f64>>> = vec![];
    assert_eq!(create_polygon_type(&create_geo_polygon(&flat)), vec![Vec::<Vec<f64>>::new()]);
}
