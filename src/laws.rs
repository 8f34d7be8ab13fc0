//! Laws relating the encoders and the decoders.
use vstd::prelude::*;

use crate::conversion::{
    coord_of, coords_of, lines_of, pair_of, pairs_of, paths_of, polygon_of, polygons_of, ring_sets_of,
    rings_of,
};
use crate::flat::{
    paths_paired, paths_view, positions_paired, positions_view, ring_sets_paired, ring_sets_view,
    rings_paired,
};
use crate::geometry::{LineString, MultiLineString, MultiPolygon, Point, Polygon};

verus! {

/// Decoding an encoded point gives the point back.
pub proof fn lemma_point_round_trip<T>(point: Point<T>)
    ensures
        coord_of(pair_of(point.0)) == point.0,
{
}

/// Decoding an encoded line string gives the same positions, in the same
/// order.
pub proof fn lemma_line_string_round_trip<T>(line_string: LineString<T>)
    ensures
        coords_of(pairs_of(line_string@)) == line_string@,
{
    assert(coords_of(pairs_of(line_string@)) =~= line_string@);
}

/// Decoding an encoded multi line string gives the same line strings, in
/// the same order.
pub proof fn lemma_multi_line_string_round_trip<T>(multi_line_string: MultiLineString<T>)
    ensures
        lines_of(paths_of(multi_line_string@)) == multi_line_string@,
{
    let s = multi_line_string@;
    assert forall|i: int| 0 <= i < s.len() implies #[trigger] lines_of(paths_of(s))[i] == s[i] by {
        lemma_path_round_trip(s[i]);
    }
    assert(lines_of(paths_of(s)) =~= s);
}

proof fn lemma_path_round_trip<T>(s: Seq<crate::geometry::Coord<T>>)
    ensures
        coords_of(pairs_of(s)) == s,
{
    assert(coords_of(pairs_of(s)) =~= s);
}

/// Decoding an encoded polygon gives the same exterior ring and the same
/// holes, in the same order.
pub proof fn lemma_polygon_round_trip<T>(polygon: Polygon<T>)
    ensures
        polygon_of(rings_of(polygon@)) == polygon@,
{
    lemma_polygon_model_round_trip(polygon@);
}

proof fn lemma_polygon_model_round_trip<T>(p: crate::geometry::PolygonModel<T>)
    ensures
        polygon_of(rings_of(p)) == p,
{
    let rings = rings_of(p);
    lemma_path_round_trip(p.exterior);
    assert(rings.drop_first() =~= paths_of(p.interiors));
    assert forall|i: int| 0 <= i < p.interiors.len() implies #[trigger] lines_of(
        paths_of(p.interiors),
    )[i] == p.interiors[i] by {
        lemma_path_round_trip(p.interiors[i]);
    }
    assert(lines_of(paths_of(p.interiors)) =~= p.interiors);
}

/// Decoding an encoded multi polygon gives the same polygons, in the same
/// order.
pub proof fn lemma_multi_polygon_round_trip<T>(multi_polygon: MultiPolygon<T>)
    ensures
        polygons_of(ring_sets_of(multi_polygon@)) == multi_polygon@,
{
    let s = multi_polygon@;
    assert forall|i: int| 0 <= i < s.len() implies #[trigger] polygons_of(ring_sets_of(s))[i]
        == s[i] by {
        lemma_polygon_model_round_trip(s[i]);
    }
    assert(polygons_of(ring_sets_of(s)) =~= s);
}

proof fn lemma_pairs_round_trip<T>(s: Seq<Seq<T>>)
    requires
        positions_paired(s),
    ensures
        pairs_of(coords_of(s)) == s,
{
    assert forall|i: int| 0 <= i < s.len() implies #[trigger] pairs_of(coords_of(s))[i] == s[i] by {
        assert(s[i].len() == 2);
        assert(pair_of(coord_of(s[i])) =~= s[i]);
    }
    assert(pairs_of(coords_of(s)) =~= s);
}

proof fn lemma_paths_round_trip<T>(s: Seq<Seq<Seq<T>>>)
    requires
        paths_paired(s),
    ensures
        paths_of(lines_of(s)) == s,
{
    assert forall|i: int| 0 <= i < s.len() implies #[trigger] paths_of(lines_of(s))[i] == s[i] by {
        lemma_pairs_round_trip(s[i]);
    }
    assert(paths_of(lines_of(s)) =~= s);
}

proof fn lemma_rings_round_trip<T>(s: Seq<Seq<Seq<T>>>)
    requires
        rings_paired(s),
    ensures
        rings_of(polygon_of(s)) == s,
{
    lemma_pairs_round_trip(s[0]);
    assert(paths_paired(s.drop_first()));
    lemma_paths_round_trip(s.drop_first());
    assert(rings_of(polygon_of(s)) =~= s);
}

/// Encoding a decoded flat position `[x, y]` gives it back.
pub proof fn lemma_point_type_round_trip<T>(point_type: Vec<T>)
    requires
        point_type@.len() == 2,
    ensures
        pair_of(coord_of(point_type@)) == point_type@,
{
    assert(pair_of(coord_of(point_type@)) =~= point_type@);
}

/// Encoding a decoded flat path whose positions are all `[x, y]` gives it
/// back.
pub proof fn lemma_line_string_type_round_trip<T>(line_type: Vec<Vec<T>>)
    requires
        positions_paired(positions_view(line_type@)),
    ensures
        pairs_of(coords_of(positions_view(line_type@))) == positions_view(line_type@),
{
    lemma_pairs_round_trip(positions_view(line_type@));
}

/// Encoding decoded flat paths whose positions are all `[x, y]` gives them
/// back.
pub proof fn lemma_multi_line_string_type_round_trip<T>(multi_line_type: Vec<Vec<Vec<T>>>)
    requires
        paths_paired(paths_view(multi_line_type@)),
    ensures
        paths_of(lines_of(paths_view(multi_line_type@))) == paths_view(multi_line_type@),
{
    lemma_paths_round_trip(paths_view(multi_line_type@));
}

/// Encoding a decoded flat polygon gives it back, when it has at least the
/// exterior ring and all its positions are `[x, y]`.
pub proof fn lemma_polygon_type_round_trip<T>(polygon_type: Vec<Vec<Vec<T>>>)
    requires
        rings_paired(paths_view(polygon_type@)),
    ensures
        rings_of(polygon_of(paths_view(polygon_type@))) == paths_view(polygon_type@),
{
    lemma_rings_round_trip(paths_view(polygon_type@));
}

/// Encoding decoded flat polygons gives them back, when each has at least
/// the exterior ring and all their positions are `[x, y]`.
pub proof fn lemma_multi_polygon_type_round_trip<T>(multi_polygon_type: Vec<Vec<Vec<Vec<T>>>>)
    requires
        ring_sets_paired(ring_sets_view(multi_polygon_type@)),
    ensures
        ring_sets_of(polygons_of(ring_sets_view(multi_polygon_type@))) == ring_sets_view(
            multi_polygon_type@,
        ),
{
    let s = ring_sets_view(multi_polygon_type@);
    assert forall|i: int| 0 <= i < s.len() implies #[trigger] ring_sets_of(polygons_of(s))[i]
        == s[i] by {
        lemma_rings_round_trip(s[i]);
    }
    assert(ring_sets_of(polygons_of(s)) =~= s);
}

/// Encoding keeps the order of a path: taking its positions in any order
/// (`idx[k]` first-to-last, a permutation included) and encoding gives the
/// encoded pairs taken in that same order.
pub proof fn lemma_line_string_order<T>(line_string: LineString<T>, idx: Seq<int>)
    requires
        forall|k: int| 0 <= k < idx.len() ==> 0 <= #[trigger] idx[k] < line_string@.len(),
    ensures
        pairs_of(Seq::new(idx.len(), |k: int| line_string@[idx[k]])) == Seq::new(
            idx.len(),
            |k: int| pairs_of(line_string@)[idx[k]],
        ),
{
    assert(pairs_of(Seq::new(idx.len(), |k: int| line_string@[idx[k]])) =~= Seq::new(
        idx.len(),
        |k: int| pairs_of(line_string@)[idx[k]],
    ));
}

} // verus!
