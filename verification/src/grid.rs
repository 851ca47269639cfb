use vstd::prelude::*;

verus! {

/// Whether `h3o::CellIndex::try_from` accepts this raw value as a cell index.
pub uninterp spec fn cell_valid(cell: u64) -> bool;

/// The grid distance that `h3o::CellIndex::grid_distance` reports between the
/// cells with these two raw values: `None` when the call fails (for example
/// across a pentagon or between cells too far apart). Meaningful only when
/// both raw values are valid cell indexes.
pub uninterp spec fn grid_distance_report(center: u64, other: u64) -> Option<int>;

/// The ring that `h3o::CellIndex::grid_ring_fast` yields around the cell with
/// this raw value, collected in order: `None` when a pentagon or a pentagon
/// distortion is encountered, in which case the cells already yielded must be
/// discarded. Meaningful only when the raw value is a valid cell index.
pub uninterp spec fn ring_report(cell: u64, k: u32) -> Option<Seq<u64>>;

/// Relies on `h3o::CellIndex::grid_distance`, with `CellIndex::try_from` for
/// the argument conversion: the reported distance is a maximum of absolute
/// local-coordinate differences, hence non-negative, and is returned as an
/// `i32` by the grid index.
#[verifier::external_body]
pub(crate) fn grid_distance_u64(center: u64, other: u64) -> (r: Result<i64, String>)
    ensures
        r matches Ok(d) ==> cell_valid(center) && cell_valid(other) && grid_distance_report(
            center,
            other,
        ) == Some(d as int) && 0 <= d <= 0x7fff_ffff,
        (cell_valid(center) && cell_valid(other) && grid_distance_report(center, other) is Some)
            ==> r is Ok,
        !(cell_valid(center) && cell_valid(other)) ==> r is Err,
{
    let center = match h3o::CellIndex::try_from(center) {
        Ok(c) => c,
        Err(e) => return Err(format!("{e}")),
    };
    let other = match h3o::CellIndex::try_from(other) {
        Ok(c) => c,
        Err(e) => return Err(format!("{e}")),
    };
    match center.grid_distance(other) {
        Ok(d) => Ok(d as i64),
        Err(e) => Err(format!("{e}")),
    }
}

/// Relies on `h3o::CellIndex::grid_ring_fast`: at `k == 0` it yields exactly
/// the origin cell; at `k > 0` it yields the `6 * k` cells of the hollow ring
/// at grid distance `k`, or a `None` item when a pentagon (or a pentagon
/// distortion) is encountered, which makes the whole report unusable.
#[verifier::external_body]
pub(crate) fn grid_ring_fast_u64(cell: u64, k: u32) -> (r: Option<Vec<u64>>)
    requires
        cell_valid(cell),
    ensures
        r matches Some(v) ==> ring_report(cell, k) == Some(v@),
        r is None ==> ring_report(cell, k) is None,
        k == 0 ==> r is Some,
        r matches Some(v) ==> (k == 0 ==> v@ == seq![cell]),
        r matches Some(v) ==> (k > 0 ==> v@.len() == 6 * k),
{
    let cell = h3o::CellIndex::try_from(cell).unwrap();
    let ring: Option<Vec<h3o::CellIndex>> = cell.grid_ring_fast(k).collect();
    ring.map(|cells| cells.into_iter().map(u64::from).collect())
}

/// The cells that a covering query reports for a resolved center cell and a
/// resolved circle-edge cell: the ring at the grid distance between the two,
/// or `None` when either grid query fails.
pub open spec fn covering_report(center_cell: u64, edge_cell: u64) -> Option<Seq<u64>> {
    if cell_valid(center_cell) && cell_valid(edge_cell) {
        match grid_distance_report(center_cell, edge_cell) {
            Some(k) => if 0 <= k <= 0x7fff_ffff {
                ring_report(center_cell, k as u32)
            } else {
                None
            },
            None => None,
        }
    } else {
        None
    }
}

/// Determinism of the covering query: two successful reports for the same
/// resolved cells hold the same cells, in the same order.
pub proof fn lemma_covering_deterministic(
    center_cell: u64,
    edge_cell: u64,
    r1: Seq<u64>,
    r2: Seq<u64>,
)
    requires
        covering_report(center_cell, edge_cell) == Some(r1),
        covering_report(center_cell, edge_cell) == Some(r2),
    ensures
        r1 == r2,
{
}

} // verus!
