use vstd::prelude::*;

verus! {

/// Errors reported by region construction and by the grid queries.
///
/// Every error is terminal: it reflects an invalid input or a failure of the
/// underlying grid index, never a transient condition.
#[derive(Debug)]
pub enum SmallestEnclosingH3Error {
    /// A coordinate outside the valid geodetic bounds.
    InvalidLatLng(String),
    /// A resolution value outside the grid hierarchy's supported levels.
    InvalidResolution(String),
    /// A radius that is not strictly positive.
    InvalidRadius(String),
    /// The grid index could not compute a distance between two cells.
    GridDistanceError(String),
    /// The grid index could not enumerate a ring.
    GridRingError(String),
}

} // verus!
