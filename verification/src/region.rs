use vstd::prelude::*;

use crate::error::SmallestEnclosingH3Error;
use crate::grid::cell_valid;
use crate::grid::covering_report;
use crate::grid::grid_distance_report;
use crate::grid::grid_distance_u64;
use crate::grid::grid_ring_fast_u64;
use crate::point::GeoPoint;

verus! {

/// Finest legal resolution level of the grid hierarchy (levels are 0..=15).
pub const MAX_RESOLUTION: u8 = 15;

/// Builder for a [`SmallestEnclosingH3`] region.
///
/// The builder itself may hold an invalid radius or resolution; every field is
/// validated no later than [`SmallestEnclosingH3Builder::build`].
#[derive(Debug)]
pub struct SmallestEnclosingH3Builder {
    resolution: u8,
    center: GeoPoint,
    radius_mm: i64,
}

/// An immutable circular region of interest: a validated center, a strictly
/// positive radius in millimeters, and a legal grid resolution level.
///
/// The region owns no cells; its queries derive them anew on every call.
#[derive(Debug)]
pub struct SmallestEnclosingH3 {
    resolution: u8,
    center: GeoPoint,
    radius_mm: i64,
}

impl SmallestEnclosingH3Builder {
    /// The candidate resolution level.
    pub closed spec fn spec_resolution(self) -> u8 {
        self.resolution
    }

    /// The candidate center point.
    pub closed spec fn spec_center(self) -> GeoPoint {
        self.center
    }

    /// The candidate radius, in millimeters.
    pub closed spec fn spec_radius_mm(self) -> i64 {
        self.radius_mm
    }

    /// Starts a builder from a center point, a radius in millimeters and a
    /// resolution level; nothing is validated until the setters or `build`.
    pub fn new(center: GeoPoint, radius_mm: i64, resolution: u8) -> (r:
        SmallestEnclosingH3Builder)
        ensures
            r.spec_center() == center,
            r.spec_radius_mm() == radius_mm,
            r.spec_resolution() == resolution,
    {
        SmallestEnclosingH3Builder { resolution, center, radius_mm }
    }

    /// Replaces the resolution level, rejecting a level the grid hierarchy
    /// does not support with `InvalidResolution`.
    pub fn resolution(self, resolution: u8) -> (r: Result<
        SmallestEnclosingH3Builder,
        SmallestEnclosingH3Error,
    >)
        ensures
            r is Ok <==> resolution <= MAX_RESOLUTION,
            r matches Ok(b) ==> b.spec_resolution() == resolution && b.spec_center()
                == self.spec_center() && b.spec_radius_mm() == self.spec_radius_mm(),
            r matches Err(e) ==> e is InvalidResolution,
    {
        if resolution > MAX_RESOLUTION {
            Err(
                SmallestEnclosingH3Error::InvalidResolution(
                    "resolution is not a supported grid level".to_owned(),
                ),
            )
        } else {
            Ok(SmallestEnclosingH3Builder { resolution, ..self })
        }
    }

    /// Replaces the center point.
    pub fn center(self, center: GeoPoint) -> (r: SmallestEnclosingH3Builder)
        ensures
            r.spec_center() == center,
            r.spec_radius_mm() == self.spec_radius_mm(),
            r.spec_resolution() == self.spec_resolution(),
    {
        SmallestEnclosingH3Builder { center, ..self }
    }

    /// Replaces the radius, given in millimeters, rejecting a value that is
    /// not strictly positive with `InvalidRadius`.
    pub fn radius_meters(self, radius_mm: i64) -> (r: Result<
        SmallestEnclosingH3Builder,
        SmallestEnclosingH3Error,
    >)
        ensures
            r is Ok <==> radius_mm > 0,
            r matches Ok(b) ==> b.spec_radius_mm() == radius_mm && b.spec_center()
                == self.spec_center() && b.spec_resolution() == self.spec_resolution(),
            r matches Err(e) ==> e is InvalidRadius,
    {
        if radius_mm <= 0 {
            Err(SmallestEnclosingH3Error::InvalidRadius("Radius must be positive".to_owned()))
        } else {
            Ok(SmallestEnclosingH3Builder { radius_mm, ..self })
        }
    }

    /// Validates every field and returns the immutable region, or the first
    /// validation error: `InvalidRadius` when the radius is not strictly
    /// positive, else `InvalidResolution` when the level is not supported.
    pub fn build(self) -> (r: Result<SmallestEnclosingH3, SmallestEnclosingH3Error>)
        ensures
            r is Ok <==> (self.spec_radius_mm() > 0 && self.spec_resolution() <= MAX_RESOLUTION),
            r matches Ok(region) ==> region.spec_center() == self.spec_center()
                && region.spec_radius_mm() == self.spec_radius_mm() && region.spec_resolution()
                == self.spec_resolution(),
            self.spec_radius_mm() <= 0 ==> (r matches Err(e) && e is InvalidRadius),
            self.spec_radius_mm() > 0 && self.spec_resolution() > MAX_RESOLUTION ==> (
            r matches Err(e) && e is InvalidResolution),
    {
        if self.radius_mm <= 0 {
            return Err(
                SmallestEnclosingH3Error::InvalidRadius("Radius must be positive".to_owned()),
            );
        }
        if self.resolution > MAX_RESOLUTION {
            return Err(
                SmallestEnclosingH3Error::InvalidResolution(
                    "resolution is not a supported grid level".to_owned(),
                ),
            );
        }
        Ok(
            SmallestEnclosingH3 {
                resolution: self.resolution,
                center: self.center,
                radius_mm: self.radius_mm,
            },
        )
    }
}

impl SmallestEnclosingH3 {
    /// Every region holds a strictly positive radius and a legal resolution
    /// level; `build` establishes this and nothing ever mutates a region.
    #[verifier::type_invariant]
    pub closed spec fn wf(self) -> bool {
        &&& self.radius_mm > 0
        &&& self.resolution <= MAX_RESOLUTION
    }

    /// The resolution level of the covering cells.
    pub closed spec fn spec_resolution(self) -> u8 {
        self.resolution
    }

    /// The center of the circle.
    pub closed spec fn spec_center(self) -> GeoPoint {
        self.center
    }

    /// The radius of the circle, in millimeters.
    pub closed spec fn spec_radius_mm(self) -> i64 {
        self.radius_mm
    }

    /// The resolution level; always a legal grid level.
    pub fn resolution(&self) -> (r: u8)
        ensures
            r == self.spec_resolution(),
            r <= MAX_RESOLUTION,
    {
        proof {
            use_type_invariant(self);
        }
        self.resolution
    }

    /// The center of the circle.
    pub fn center(&self) -> (r: GeoPoint)
        ensures
            r == self.spec_center(),
    {
        self.center
    }

    /// The radius, in millimeters; always strictly positive.
    pub fn radius_mm(&self) -> (r: i64)
        ensures
            r == self.spec_radius_mm(),
            r > 0,
    {
        proof {
            use_type_invariant(self);
        }
        self.radius_mm
    }

    /// The covering cells of the region, as raw cell values.
    ///
    /// The caller resolves the region's center to its cell at the region's
    /// resolution, projects the center due north by the region's radius, and
    /// resolves that edge point to its cell likewise; this query then reports
    /// the ring of cells at the grid distance `k` between the two, which is
    /// never empty on success. A failing distance query is surfaced as
    /// `GridDistanceError`, a failing ring enumeration as `GridRingError`.
    pub fn hexagons(&self, center_cell: u64, edge_cell: u64) -> (r: Result<
        Vec<u64>,
        SmallestEnclosingH3Error,
    >)
        ensures
            r matches Ok(v) ==> covering_report(center_cell, edge_cell) == Some(v@) && v@.len()
                > 0,
            covering_report(center_cell, edge_cell) is Some ==> r is Ok,
            r matches Err(e) ==> (e is GridDistanceError || e is GridRingError),
            r matches Err(e) ==> (e is GridRingError <==> (cell_valid(center_cell) && cell_valid(
                edge_cell,
            ) && grid_distance_report(center_cell, edge_cell) is Some)),
    {
        let k: i64 = match grid_distance_u64(center_cell, edge_cell) {
            Ok(d) => d,
            Err(msg) => return Err(SmallestEnclosingH3Error::GridDistanceError(msg)),
        };
        match grid_ring_fast_u64(center_cell, k as u32) {
            Some(cells) => Ok(cells),
            None => Err(
                SmallestEnclosingH3Error::GridRingError(
                    "pentagon distortion in the grid ring".to_owned(),
                ),
            ),
        }
    }
}

} // verus!
