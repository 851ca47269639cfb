//! Covering a geodesic circle with cells of a hierarchical hexagonal grid.
//!
//! A [`SmallestEnclosingH3`] region holds a validated center, radius and grid
//! resolution. Its queries resolve the metric radius into an integer grid
//! distance `k` and report the ring of cells at that distance, together with
//! the integer-valued pieces of the circle-boundary sampling.
//!
//! Coordinates are carried as microdegrees and radii as millimeters, so that
//! every value the logic reads is a plain integer. The floating-point geodesic
//! projection and the conversion of coordinates into raw cell values are done
//! by the caller, which hands the resolved cells to [`SmallestEnclosingH3::hexagons`].

pub mod boundary;
pub mod error;
pub mod grid;
pub mod point;
pub mod region;

pub use boundary::circle_bearings;
pub use boundary::close_ring;
pub use error::SmallestEnclosingH3Error;
pub use point::GeoPoint;
pub use region::SmallestEnclosingH3;
pub use region::SmallestEnclosingH3Builder;
