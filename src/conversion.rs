//! Encoding typed geometries into the flat interchange form, and decoding
//! them back.
use vstd::prelude::*;

use crate::{flat, geometry};

use crate::flat::{
    geometry_shaped, Value,paths_shaped, paths_view, positions_shaped, positions_view, ring_sets_shaped, ring_sets_view};
use crate::geometry::{
    Coord, GeometryCollection, LineString, MultiLineString, MultiPoint, MultiPolygon, Point, Polygon, PolygonModel,
};

verus! {

/// The flat form of a position: `[x, y]`.
pub open spec fn pair_of<T>(c: Coord<T>) -> Seq<T> {
    seq![c.x, c.y]
}

/// The flat form of a path: each position encoded, in order.
pub open spec fn pairs_of<T>(s: Seq<Coord<T>>) -> Seq<Seq<T>> {
    s.map_values(|c: Coord<T>| pair_of(c))
}

/// The flat form of a sequence of paths, each encoded, in order.
pub open spec fn paths_of<T>(s: Seq<Seq<Coord<T>>>) -> Seq<Seq<Seq<T>>> {
    s.map_values(|l: Seq<Coord<T>>| pairs_of(l))
}

/// The flat form of a polygon: the exterior ring, then each hole in order.
pub open spec fn rings_of<T>(p: PolygonModel<T>) -> Seq<Seq<Seq<T>>> {
    seq![pairs_of(p.exterior)] + paths_of(p.interiors)
}

/// The flat form of a sequence of polygons, each encoded, in order.
pub open spec fn ring_sets_of<T>(s: Seq<PolygonModel<T>>) -> Seq<Seq<Seq<Seq<T>>>> {
    s.map_values(|p: PolygonModel<T>| rings_of(p))
}

/// Encodes a point as `[x, y]`.
pub fn create_point_type<T: Copy>(point: &Point<T>) -> (r: Vec<T>)
    ensures
        r@ == pair_of(point.0),
{
    let x = point.x();
    let y = point.y();
    vec![x, y]
}

/// Encodes each position of a path, in order.
pub fn create_line_string_type<T: Copy>(line_string: &LineString<T>) -> (r: Vec<Vec<T>>)
    ensures
        positions_view(r@) == pairs_of(line_string@),
{
    let mut out: Vec<Vec<T>> = Vec::new();
    let n = line_string.0.len();
    let mut i: usize = 0;
    while i < n
        invariant
            n == line_string@.len(),
            i <= n,
            out@.len() == i,
            forall|j: int| 0 <= j < i ==> #[trigger] out@[j]@ == pair_of(line_string@[j]),
        decreases n - i,
    {
        let point = Point(line_string.0[i]);
        out.push(create_point_type(&point));
        i += 1;
    }
    assert(positions_view(out@) =~= pairs_of(line_string@));
    out
}

/// Encodes each line string, in order.
pub fn create_multi_line_string_type<T: Copy>(multi_line_string: &MultiLineString<T>) -> (r: Vec<Vec<Vec<T>>>)
    ensures
        paths_view(r@) == paths_of(multi_line_string@),
{
    let mut out: Vec<Vec<Vec<T>>> = Vec::new();
    let n = multi_line_string.0.len();
    let mut i: usize = 0;
    while i < n
        invariant
            n == multi_line_string.0@.len(),
            i <= n,
            out@.len() == i,
            forall|j: int| 0 <= j < i ==> #[trigger] positions_view(out@[j]@) == pairs_of(multi_line_string.0@[j]@),
        decreases n - i,
    {
        out.push(create_line_string_type(&multi_line_string.0[i]));
        i += 1;
    }
    assert(paths_view(out@) =~= paths_of(multi_line_string@));
    out
}

/// Encodes a polygon: its exterior ring first, then each hole in order.
pub fn create_polygon_type<T: Copy>(polygon: &Polygon<T>) -> (r: Vec<Vec<Vec<T>>>)
    ensures
        paths_view(r@) == rings_of(polygon@),
        r@.len() == polygon.interiors@.len() + 1,
{
    let mut coords: Vec<Vec<Vec<T>>> = vec![create_line_string_type(polygon.exterior())];
    let interiors = polygon.interiors();
    let n = interiors.len();
    let mut i: usize = 0;
    while i < n
        invariant
            interiors@ == polygon.interiors@,
            n == interiors@.len(),
            i <= n,
            coords@.len() == i + 1,
            positions_view(coords@[0]@) == pairs_of(polygon.exterior@),
            forall|j: int| 0 <= j < i ==> #[trigger] positions_view(coords@[j + 1]@) == pairs_of(interiors@[j]@),
        decreases n - i,
    {
        coords.push(create_line_string_type(&interiors[i]));
        i += 1;
    }
    assert forall|k: int| 1 <= k < coords@.len() implies #[trigger] positions_view(coords@[k]@)
        == rings_of(polygon@)[k] by {
        assert(positions_view(coords@[(k - 1) + 1]@) == pairs_of(interiors@[k - 1]@));
    }
    assert(paths_view(coords@) =~= rings_of(polygon@));
    coords
}

/// Encodes each polygon, in order.
pub fn create_multi_polygon_type<T: Copy>(multi_polygon: &MultiPolygon<T>) -> (r: Vec<Vec<Vec<Vec<T>>>>)
    ensures
        ring_sets_view(r@) == ring_sets_of(multi_polygon@),
{
    let mut out: Vec<Vec<Vec<Vec<T>>>> = Vec::new();
    let n = multi_polygon.0.len();
    let mut i: usize = 0;
    while i < n
        invariant
            n == multi_polygon.0@.len(),
            i <= n,
            out@.len() == i,
            forall|j: int| 0 <= j < i ==> #[trigger] paths_view(out@[j]@) == rings_of(multi_polygon.0@[j]@),
        decreases n - i,
    {
        out.push(create_polygon_type(&multi_polygon.0[i]));
        i += 1;
    }
    assert(ring_sets_view(out@) =~= ring_sets_of(multi_polygon@));
    out
}

/// The position that a flat position denotes: x first, then y.
pub open spec fn coord_of<T>(p: Seq<T>) -> Coord<T> {
    Coord { x: p[0], y: p[1] }
}

/// The path that flat positions denote, in order.
pub open spec fn coords_of<T>(s: Seq<Seq<T>>) -> Seq<Coord<T>> {
    s.map_values(|p: Seq<T>| coord_of(p))
}

/// The points that flat positions denote, in order.
pub open spec fn points_of<T>(s: Seq<Seq<T>>) -> Seq<Point<T>> {
    s.map_values(|p: Seq<T>| Point(coord_of(p)))
}

/// The paths that flat paths denote, in order.
pub open spec fn lines_of<T>(s: Seq<Seq<Seq<T>>>) -> Seq<Seq<Coord<T>>> {
    s.map_values(|l: Seq<Seq<T>>| coords_of(l))
}

/// The polygon that flat rings denote: the first ring is the exterior and
/// the rest are holes, in order; no rings at all denote an empty exterior
/// and no holes.
pub open spec fn polygon_of<T>(s: Seq<Seq<Seq<T>>>) -> PolygonModel<T> {
    if s.len() == 0 {
        PolygonModel { exterior: Seq::empty(), interiors: Seq::empty() }
    } else {
        PolygonModel { exterior: coords_of(s[0]), interiors: lines_of(s.drop_first()) }
    }
}

/// The polygons that flat ring sets denote, in order.
pub open spec fn polygons_of<T>(s: Seq<Seq<Seq<Seq<T>>>>) -> Seq<PolygonModel<T>> {
    s.map_values(|p: Seq<Seq<Seq<T>>>| polygon_of(p))
}

/// Decodes `[x, y, ..]` into a position.
pub fn create_geo_coordinate<T: Copy>(point_type: &Vec<T>) -> (r: Coord<T>)
    requires
        point_type@.len() >= 2,
    ensures
        r == coord_of(point_type@),
{
    Coord { x: point_type[0], y: point_type[1] }
}

/// Decodes `[x, y, ..]` into a point.
pub fn create_geo_point<T: Copy>(point_type: &Vec<T>) -> (r: Point<T>)
    requires
        point_type@.len() >= 2,
    ensures
        r.0 == coord_of(point_type@),
{
    Point::new(point_type[0], point_type[1])
}

/// Decodes each flat position into a point, in order.
pub fn create_geo_multi_point<T: Copy>(multipoint_type: &[Vec<T>]) -> (r: MultiPoint<T>)
    requires
        positions_shaped(positions_view(multipoint_type@)),
    ensures
        r@ == points_of(positions_view(multipoint_type@)),
{
    let mut out: Vec<Point<T>> = Vec::new();
    let n = multipoint_type.len();
    let mut i: usize = 0;
    while i < n
        invariant
            n == multipoint_type@.len(),
            positions_shaped(positions_view(multipoint_type@)),
            i <= n,
            out@.len() == i,
            forall|j: int| 0 <= j < i ==> #[trigger] out@[j] == Point(coord_of(multipoint_type@[j]@)),
        decreases n - i,
    {
        assert(positions_view(multipoint_type@)[i as int].len() >= 2);
        out.push(create_geo_point(&multipoint_type[i]));
        i += 1;
    }
    assert(out@ =~= points_of(positions_view(multipoint_type@)));
    MultiPoint(out)
}

/// Decodes each flat position of a path, in order.
pub fn create_geo_line_string<T: Copy>(line_type: &Vec<Vec<T>>) -> (r: LineString<T>)
    requires
        positions_shaped(positions_view(line_type@)),
    ensures
        r@ == coords_of(positions_view(line_type@)),
{
    let mut out: Vec<Coord<T>> = Vec::new();
    let n = line_type.len();
    let mut i: usize = 0;
    while i < n
        invariant
            n == line_type@.len(),
            positions_shaped(positions_view(line_type@)),
            i <= n,
            out@.len() == i,
            forall|j: int| 0 <= j < i ==> #[trigger] out@[j] == coord_of(line_type@[j]@),
        decreases n - i,
    {
        assert(positions_view(line_type@)[i as int].len() >= 2);
        out.push(create_geo_coordinate(&line_type[i]));
        i += 1;
    }
    assert(out@ =~= coords_of(positions_view(line_type@)));
    LineString(out)
}

/// Decodes each flat path, in order.
pub fn create_geo_multi_line_string<T: Copy>(multi_line_type: &[Vec<Vec<T>>]) -> (r: MultiLineString<T>)
    requires
        paths_shaped(paths_view(multi_line_type@)),
    ensures
        r@ == lines_of(paths_view(multi_line_type@)),
{
    let mut out: Vec<LineString<T>> = Vec::new();
    let n = multi_line_type.len();
    let mut i: usize = 0;
    while i < n
        invariant
            n == multi_line_type@.len(),
            paths_shaped(paths_view(multi_line_type@)),
            i <= n,
            out@.len() == i,
            forall|j: int| 0 <= j < i ==> #[trigger] out@[j]@ == coords_of(positions_view(multi_line_type@[j]@)),
        decreases n - i,
    {
        assert(positions_shaped(paths_view(multi_line_type@)[i as int]));
        out.push(create_geo_line_string(&multi_line_type[i]));
        i += 1;
    }
    let r = MultiLineString(out);
    assert(r@ =~= lines_of(paths_view(multi_line_type@)));
    r
}

/// Decodes flat rings into a polygon: the first ring is the exterior and
/// the rest are holes, in order; no rings at all give an empty exterior and
/// no holes.
pub fn create_geo_polygon<T: Copy>(polygon_type: &Vec<Vec<Vec<T>>>) -> (r: Polygon<T>)
    requires
        paths_shaped(paths_view(polygon_type@)),
    ensures
        r@ == polygon_of(paths_view(polygon_type@)),
{
    let n = polygon_type.len();
    let exterior = if n > 0 {
        assert(positions_shaped(paths_view(polygon_type@)[0]));
        create_geo_line_string(&polygon_type[0])
    } else {
        let empty: Vec<Vec<T>> = Vec::new();
        create_geo_line_string(&empty)
    };
    let mut interiors: Vec<LineString<T>> = Vec::new();
    if n >= 2 {
        let mut i: usize = 1;
        while i < n
            invariant
                n == polygon_type@.len(),
                paths_shaped(paths_view(polygon_type@)),
                1 <= i <= n,
                interiors@.len() == i - 1,
                forall|j: int| 1 <= j < i ==> #[trigger] interiors@[j - 1]@ == coords_of(positions_view(polygon_type@[j]@)),
            decreases n - i,
        {
            assert(positions_shaped(paths_view(polygon_type@)[i as int]));
            interiors.push(create_geo_line_string(&polygon_type[i]));
            i += 1;
        }
        assert forall|k: int| 0 <= k < interiors@.len() implies #[trigger] interiors@[k]@
            == coords_of(positions_view(polygon_type@[k + 1]@)) by {
            assert(interiors@[(k + 1) - 1]@ == coords_of(positions_view(polygon_type@[k + 1]@)));
        }
    }
    let r = Polygon::new(exterior, interiors);
    assert(r@.exterior =~= polygon_of(paths_view(polygon_type@)).exterior);
    assert(r@.interiors =~= polygon_of(paths_view(polygon_type@)).interiors);
    r
}

/// Decodes each flat ring set into a polygon, in order.
pub fn create_geo_multi_polygon<T: Copy>(multi_polygon_type: &[Vec<Vec<Vec<T>>>]) -> (r: MultiPolygon<T>)
    requires
        ring_sets_shaped(ring_sets_view(multi_polygon_type@)),
    ensures
        r@ == polygons_of(ring_sets_view(multi_polygon_type@)),
{
    let mut out: Vec<Polygon<T>> = Vec::new();
    let n = multi_polygon_type.len();
    let mut i: usize = 0;
    while i < n
        invariant
            n == multi_polygon_type@.len(),
            ring_sets_shaped(ring_sets_view(multi_polygon_type@)),
            i <= n,
            out@.len() == i,
            forall|j: int| 0 <= j < i ==> #[trigger] out@[j]@ == polygon_of(paths_view(multi_polygon_type@[j]@)),
        decreases n - i,
    {
        assert(paths_shaped(ring_sets_view(multi_polygon_type@)[i as int]));
        out.push(create_geo_polygon(&multi_polygon_type[i]));
        i += 1;
    }
    let r = MultiPolygon(out);
    assert(r@ =~= polygons_of(ring_sets_view(multi_polygon_type@)));
    r
}

/// `g` is the typed geometry that the flat geometry `f` denotes: the same
/// kind, with the payload decoded as each kind's own decoder does, and a
/// nested collection decoded element by element, in order.
pub open spec fn decodes_to<T>(f: flat::Geometry<T>, g: geometry::Geometry<T>) -> bool
    decreases f,
{
    match f.value {
        Value::Point(p) => g is Point && g->Point_0.0 == coord_of(p@),
        Value::MultiPoint(ps) => g is MultiPoint && g->MultiPoint_0@ == points_of(positions_view(ps@)),
        Value::LineString(l) => g is LineString && g->LineString_0@ == coords_of(positions_view(l@)),
        Value::MultiLineString(ls) => g is MultiLineString && g->MultiLineString_0@ == lines_of(
            paths_view(ls@),
        ),
        Value::Polygon(p) => g is Polygon && g->Polygon_0@ == polygon_of(paths_view(p@)),
        Value::MultiPolygon(ps) => g is MultiPolygon && g->MultiPolygon_0@ == polygons_of(
            ring_sets_view(ps@),
        ),
        Value::GeometryCollection(fs) => g is GeometryCollection && g->GeometryCollection_0.0@.len()
            == fs@.len() && forall|i: int|
            #![trigger fs@[i]]
            0 <= i < fs@.len() ==> decodes_to(fs@[i], g->GeometryCollection_0.0@[i]),
    }
}

/// Decodes each flat geometry by its kind, in order; a nested collection is
/// decoded the same way, recursively.
pub fn create_geo_geometry_collection<T: Copy>(geometries: &[flat::Geometry<T>]) -> (r: GeometryCollection<T>)
    requires
        forall|i: int| 0 <= i < geometries@.len() ==> #[trigger] geometry_shaped(geometries@[i]),
    ensures
        r.0@.len() == geometries@.len(),
        forall|i: int| 0 <= i < geometries@.len() ==> #[trigger] decodes_to(geometries@[i], r.0@[i]),
    decreases geometries@,
{
    let mut out: Vec<geometry::Geometry<T>> = Vec::new();
    let n = geometries.len();
    let mut i: usize = 0;
    while i < n
        invariant
            n == geometries@.len(),
            forall|j: int| 0 <= j < n ==> #[trigger] geometry_shaped(geometries@[j]),
            i <= n,
            out@.len() == i,
            forall|j: int| 0 <= j < i ==> #[trigger] decodes_to(geometries@[j], out@[j]),
        decreases n - i,
    {
        let g = &geometries[i];
        assert(geometry_shaped(geometries@[i as int]));
        let item = match &g.value {
            Value::Point(p) => geometry::Geometry::Point(create_geo_point(p)),
            Value::LineString(l) => geometry::Geometry::LineString(create_geo_line_string(l)),
            Value::Polygon(p) => geometry::Geometry::Polygon(create_geo_polygon(p)),
            Value::MultiPoint(p) => geometry::Geometry::MultiPoint(create_geo_multi_point(p.as_slice())),
            Value::MultiPolygon(p) => geometry::Geometry::MultiPolygon(
                create_geo_multi_polygon(p.as_slice()),
            ),
            Value::MultiLineString(p) => geometry::Geometry::MultiLineString(
                create_geo_multi_line_string(p.as_slice()),
            ),
            Value::GeometryCollection(gs) => {
                proof {
                    assert(decreases_to!(geometries@ => gs@));
                    assert(gs@ == geometries@[i as int].value->GeometryCollection_0@);
                }
                let inner = gs.as_slice();
                let c = create_geo_geometry_collection(inner);
                assert forall|k: int| 0 <= k < gs@.len() implies decodes_to(gs@[k], c.0@[k]) by {
                    assert(decodes_to(inner@[k], c.0@[k]));
                }
                geometry::Geometry::GeometryCollection(c)
            },
        };
        out.push(item);
        i += 1;
    }
    GeometryCollection(out)
}

} // verus!
