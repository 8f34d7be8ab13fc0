//! Typed geometries, generic over the coordinate number type.
use vstd::prelude::*;

verus! {

/// An (x, y) position.
#[derive(Clone, Copy, Debug, PartialEq)]
pub struct Coord<T> {
    pub x: T,
    pub y: T,
}

/// A single position.
#[derive(Clone, Copy, Debug, PartialEq)]
pub struct Point<T>(pub Coord<T>);

impl<T: Copy> Point<T> {
    pub fn new(x: T, y: T) -> (r: Point<T>)
        ensures
            r.0 == (Coord { x, y }),
    {
        Point(Coord { x, y })
    }

    pub fn x(&self) -> (r: T)
        ensures
            r == self.0.x,
    {
        self.0.x
    }

    pub fn y(&self) -> (r: T)
        ensures
            r == self.0.y,
    {
        self.0.y
    }
}

/// An ordered path of positions.
#[derive(Clone, Debug, PartialEq)]
pub struct LineString<T>(pub Vec<Coord<T>>);

impl<T> View for LineString<T> {
    type V = Seq<Coord<T>>;

    open spec fn view(&self) -> Seq<Coord<T>> {
        self.0@
    }
}

/// An ordered collection of independent points.
#[derive(Clone, Debug, PartialEq)]
pub struct MultiPoint<T>(pub Vec<Point<T>>);

impl<T> View for MultiPoint<T> {
    type V = Seq<Point<T>>;

    open spec fn view(&self) -> Seq<Point<T>> {
        self.0@
    }
}

/// The positions of each line string of a sequence, in order.
pub open spec fn lines_view<T>(lines: Seq<LineString<T>>) -> Seq<Seq<Coord<T>>> {
    lines.map_values(|l: LineString<T>| l@)
}

/// An ordered collection of independent line strings.
#[derive(Clone, Debug, PartialEq)]
pub struct MultiLineString<T>(pub Vec<LineString<T>>);

impl<T> View for MultiLineString<T> {
    type V = Seq<Seq<Coord<T>>>;

    open spec fn view(&self) -> Seq<Seq<Coord<T>>> {
        lines_view(self.0@)
    }
}

/// What a polygon is made of: its exterior ring and its interior rings
/// (holes), in order.
pub struct PolygonModel<T> {
    pub exterior: Seq<Coord<T>>,
    pub interiors: Seq<Seq<Coord<T>>>,
}

/// An area bounded by an exterior ring, with zero or more holes.
#[derive(Clone, Debug, PartialEq)]
pub struct Polygon<T> {
    pub exterior: LineString<T>,
    pub interiors: Vec<LineString<T>>,
}

impl<T> View for Polygon<T> {
    type V = PolygonModel<T>;

    open spec fn view(&self) -> PolygonModel<T> {
        PolygonModel { exterior: self.exterior@, interiors: lines_view(self.interiors@) }
    }
}

impl<T> Polygon<T> {
    pub fn new(exterior: LineString<T>, interiors: Vec<LineString<T>>) -> (r: Polygon<T>)
        ensures
            r.exterior == exterior,
            r.interiors == interiors,
    {
        Polygon { exterior, interiors }
    }

    pub fn exterior(&self) -> (r: &LineString<T>)
        ensures
            r == self.exterior,
    {
        &self.exterior
    }

    pub fn interiors(&self) -> (r: &[LineString<T>])
        ensures
            r@ == self.interiors@,
    {
        self.interiors.as_slice()
    }
}

/// What each polygon of a sequence is made of, in order.
pub open spec fn polygons_view<T>(polygons: Seq<Polygon<T>>) -> Seq<PolygonModel<T>> {
    polygons.map_values(|p: Polygon<T>| p@)
}

/// An ordered collection of independent polygons.
#[derive(Clone, Debug, PartialEq)]
pub struct MultiPolygon<T>(pub Vec<Polygon<T>>);

impl<T> View for MultiPolygon<T> {
    type V = Seq<PolygonModel<T>>;

    open spec fn view(&self) -> Seq<PolygonModel<T>> {
        polygons_view(self.0@)
    }
}

/// Any one of the geometry kinds.
#[derive(Debug, PartialEq)]
pub enum Geometry<T> {
    Point(Point<T>),
    LineString(LineString<T>),
    Polygon(Polygon<T>),
    MultiPoint(MultiPoint<T>),
    MultiLineString(MultiLineString<T>),
    MultiPolygon(MultiPolygon<T>),
    GeometryCollection(GeometryCollection<T>),
}

/// An ordered collection of geometries of any kind, nested collections
/// included.
#[derive(Debug, PartialEq)]
pub struct GeometryCollection<T>(pub Vec<Geometry<T>>);

} // verus!
