use crate::coords::floor_degrees;
use vstd::prelude::*;

verus! {

/// How far south of the northern edge of its one-degree cell a latitude lies,
/// in units: from 1 to 10 000 000. A whole degree counts as the southern edge
/// of the cell north of it.
pub open spec fn spec_south_of_edge(lat: int) -> int {
    (floor_degrees(lat) + 1) * 10_000_000 - lat
}

/// How far east of the western edge of its one-degree cell a longitude lies,
/// in units: from 0 to 9 999 999.
pub open spec fn spec_east_of_edge(lon: int) -> int {
    lon - floor_degrees(lon) * 10_000_000
}

/// The row of a grid of `extent` rows in which a latitude falls. Row 0 is the
/// northernmost.
pub open spec fn spec_row(lat: int, extent: int) -> int {
    (spec_south_of_edge(lat) * extent) / 10_000_000
}

/// The column of a grid of `extent` columns in which a longitude falls.
/// Column 0 is the westernmost.
pub open spec fn spec_col(lon: int, extent: int) -> int {
    (spec_east_of_edge(lon) * extent) / 10_000_000
}

/// Where a latitude and a longitude lie in their cell: a latitude is more
/// than nothing and at most a degree south of the northern edge, a whole
/// degree only where it is a whole number of degrees itself; a longitude is
/// less than a degree east of the western edge, and on it only where it is a
/// whole number of degrees.
pub proof fn lemma_edge_distances(lat: int, lon: int)
    ensures
        1 <= spec_south_of_edge(lat) <= 10_000_000,
        spec_south_of_edge(lat) == 10_000_000 <==> lat % 10_000_000 == 0,
        0 <= spec_east_of_edge(lon) < 10_000_000,
        spec_east_of_edge(lon) == 0 <==> lon % 10_000_000 == 0,
{
}

/// The row is the number of whole samples between the latitude and the
/// northern edge, and the column the number of whole samples between the
/// western edge and the longitude. A cell is `extent` samples high and wide.
pub proof fn lemma_offset_bounds(lat: int, lon: int, extent: int)
    requires
        extent >= 1,
    ensures
        spec_row(lat, extent) * 10_000_000 <= spec_south_of_edge(lat) * extent < (spec_row(
            lat,
            extent,
        ) + 1) * 10_000_000,
        spec_col(lon, extent) * 10_000_000 <= spec_east_of_edge(lon) * extent < (spec_col(
            lon,
            extent,
        ) + 1) * 10_000_000,
{
}

/// Every longitude falls in a column of the grid, and every latitude in a row
/// of it but a whole number of degrees, which falls in the row beyond the
/// last.
pub proof fn lemma_offsets_in_grid(lat: int, lon: int, extent: int)
    requires
        extent >= 1,
    ensures
        0 <= spec_row(lat, extent) <= extent,
        spec_row(lat, extent) == extent <==> lat % 10_000_000 == 0,
        0 <= spec_col(lon, extent) < extent,
{
    lemma_edge_distances(lat, lon);
    lemma_offset_bounds(lat, lon, extent);
    let south = spec_south_of_edge(lat);
    let east = spec_east_of_edge(lon);
    assert(0 < south * extent <= 10_000_000 * extent && (south < 10_000_000 ==> south * extent
        < 10_000_000 * extent)) by (nonlinear_arith)
        requires
            1 <= south <= 10_000_000,
            extent >= 1,
    ;
    assert(0 <= east * extent < 10_000_000 * extent) by (nonlinear_arith)
        requires
            0 <= east < 10_000_000,
            extent >= 1,
    ;
}

/// A longitude on the western edge of its cell falls in column 0.
pub proof fn lemma_west_edge_is_column_zero(lon: int, extent: int)
    requires
        extent >= 1,
        lon % 10_000_000 == 0,
    ensures
        spec_col(lon, extent) == 0,
{
    lemma_edge_distances(0, lon);
    assert(spec_east_of_edge(lon) * extent == 0) by (nonlinear_arith)
        requires
            spec_east_of_edge(lon) == 0,
    ;
}

/// A latitude less than one sample south of the northern edge of its cell
/// falls in row 0, and one that is at least one sample and less than two
/// samples south of it falls in row 1.
pub proof fn lemma_rows_below_north_edge(lat: int, extent: int)
    requires
        extent >= 1,
    ensures
        spec_south_of_edge(lat) * extent < 10_000_000 ==> spec_row(lat, extent) == 0,
        10_000_000 <= spec_south_of_edge(lat) * extent < 20_000_000 ==> spec_row(lat, extent)
            == 1,
{
    lemma_offsets_in_grid(lat, 0, extent);
}

/// Within a cell the row does not shrink as the latitude goes south.
pub proof fn lemma_rows_grow_southward(north: int, south: int, extent: int)
    requires
        extent >= 1,
        south <= north,
        floor_degrees(south) == floor_degrees(north),
    ensures
        spec_row(north, extent) <= spec_row(south, extent),
{
    assert(spec_south_of_edge(north) * extent <= spec_south_of_edge(south) * extent)
        by (nonlinear_arith)
        requires
            spec_south_of_edge(north) <= spec_south_of_edge(south),
            extent >= 1,
    ;
}

/// Within a cell the column does not shrink as the longitude goes east.
pub proof fn lemma_cols_grow_eastward(west: int, east: int, extent: int)
    requires
        extent >= 1,
        west <= east,
        floor_degrees(west) == floor_degrees(east),
    ensures
        spec_col(west, extent) <= spec_col(east, extent),
{
    assert(spec_east_of_edge(west) * extent <= spec_east_of_edge(east) * extent)
        by (nonlinear_arith)
        requires
            spec_east_of_edge(west) <= spec_east_of_edge(east),
            extent >= 1,
    ;
}

} // verus!
