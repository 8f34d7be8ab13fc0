//! The flat interchange encoding: positions as sequences of coordinate
//! numbers, nested once more for each level of structure.
use vstd::prelude::*;

verus! {

/// A position: `[x, y]`.
pub type PointType<T> = Vec<T>;

/// The positions of a path, in order.
pub type LineStringType<T> = Vec<PointType<T>>;

/// The rings of a polygon: the exterior first, then each hole in order.
pub type PolygonType<T> = Vec<LineStringType<T>>;

/// The payload of a flat geometry, shaped by its kind.
#[derive(Debug, PartialEq)]
pub enum Value<T> {
    Point(PointType<T>),
    MultiPoint(Vec<PointType<T>>),
    LineString(LineStringType<T>),
    MultiLineString(Vec<LineStringType<T>>),
    Polygon(PolygonType<T>),
    MultiPolygon(Vec<PolygonType<T>>),
    GeometryCollection(Vec<Geometry<T>>),
}

/// A flat geometry, tagged with its kind.
#[derive(Debug, PartialEq)]
pub struct Geometry<T> {
    pub value: Value<T>,
}

impl<T> Geometry<T> {
    pub fn new(value: Value<T>) -> (r: Geometry<T>)
        ensures
            r.value == value,
    {
        Geometry { value }
    }
}

/// The numbers of each position of a sequence.
pub open spec fn positions_view<T>(v: Seq<Vec<T>>) -> Seq<Seq<T>> {
    v.map_values(|p: Vec<T>| p@)
}

/// The numbers of each position of each path of a sequence.
pub open spec fn paths_view<T>(v: Seq<Vec<Vec<T>>>) -> Seq<Seq<Seq<T>>> {
    v.map_values(|l: Vec<Vec<T>>| positions_view(l@))
}

/// The numbers of each position of each ring of each polygon of a sequence.
pub open spec fn ring_sets_view<T>(v: Seq<Vec<Vec<Vec<T>>>>) -> Seq<Seq<Seq<Seq<T>>>> {
    v.map_values(|p: Vec<Vec<Vec<T>>>| paths_view(p@))
}

/// Every position of the sequence holds at least an x and a y.
pub open spec fn positions_shaped<T>(s: Seq<Seq<T>>) -> bool {
    forall|i: int| 0 <= i < s.len() ==> #[trigger] s[i].len() >= 2
}

/// Every position of every path holds at least an x and a y.
pub open spec fn paths_shaped<T>(s: Seq<Seq<Seq<T>>>) -> bool {
    forall|i: int| 0 <= i < s.len() ==> positions_shaped(#[trigger] s[i])
}

/// Every position of every ring of every polygon holds at least an x and a y.
pub open spec fn ring_sets_shaped<T>(s: Seq<Seq<Seq<Seq<T>>>>) -> bool {
    forall|i: int| 0 <= i < s.len() ==> paths_shaped(#[trigger] s[i])
}

/// Every position of the sequence is exactly `[x, y]`.
pub open spec fn positions_paired<T>(s: Seq<Seq<T>>) -> bool {
    forall|i: int| 0 <= i < s.len() ==> #[trigger] s[i].len() == 2
}

/// Every position of every path is exactly `[x, y]`.
pub open spec fn paths_paired<T>(s: Seq<Seq<Seq<T>>>) -> bool {
    forall|i: int| 0 <= i < s.len() ==> positions_paired(#[trigger] s[i])
}

/// A well-formed polygon: at least the exterior ring, and every position of
/// every ring exactly `[x, y]`.
pub open spec fn rings_paired<T>(s: Seq<Seq<Seq<T>>>) -> bool {
    s.len() >= 1 && paths_paired(s)
}

/// Every polygon of the sequence is well-formed.
pub open spec fn ring_sets_paired<T>(s: Seq<Seq<Seq<Seq<T>>>>) -> bool {
    forall|i: int| 0 <= i < s.len() ==> rings_paired(#[trigger] s[i])
}

/// Every position in the geometry, nested collections included, holds at
/// least an x and a y.
pub open spec fn geometry_shaped<T>(g: Geometry<T>) -> bool
    decreases g,
{
    match g.value {
        Value::Point(p) => p@.len() >= 2,
        Value::MultiPoint(ps) => positions_shaped(positions_view(ps@)),
        Value::LineString(l) => positions_shaped(positions_view(l@)),
        Value::MultiLineString(ls) => paths_shaped(paths_view(ls@)),
        Value::Polygon(p) => paths_shaped(paths_view(p@)),
        Value::MultiPolygon(ps) => ring_sets_shaped(ring_sets_view(ps@)),
        Value::GeometryCollection(gs) => forall|i: int|
            #![trigger gs@[i]]
            0 <= i < gs@.len() ==> geometry_shaped(gs@[i]),
    }
}

} // verus!
