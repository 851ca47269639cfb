use vstd::prelude::*;

use crate::error::SmallestEnclosingH3Error;

verus! {

/// Largest legal latitude, in microdegrees (90 degrees).
pub const LAT_LIMIT_MICRODEG: i64 = 90_000_000;

/// Largest legal longitude, in microdegrees (180 degrees).
pub const LNG_LIMIT_MICRODEG: i64 = 180_000_000;

/// A validated latitude/longitude pair, stored in microdegrees.
///
/// The only way to obtain a `GeoPoint` is [`GeoPoint::new`], which rejects
/// coordinates outside the valid geodetic range, so every value of this type
/// satisfies [`GeoPoint::wf`].
#[derive(Clone, Copy, Debug)]
pub struct GeoPoint {
    lat_microdeg: i64,
    lng_microdeg: i64,
}

impl GeoPoint {
    /// Valid geodetic range: latitude in [-90, 90] degrees and longitude in
    /// [-180, 180] degrees.
    #[verifier::type_invariant]
    pub closed spec fn wf(self) -> bool {
        &&& -LAT_LIMIT_MICRODEG <= self.lat_microdeg <= LAT_LIMIT_MICRODEG
        &&& -LNG_LIMIT_MICRODEG <= self.lng_microdeg <= LNG_LIMIT_MICRODEG
    }

    /// The latitude, in microdegrees.
    pub closed spec fn spec_lat_microdeg(self) -> i64 {
        self.lat_microdeg
    }

    /// The longitude, in microdegrees.
    pub closed spec fn spec_lng_microdeg(self) -> i64 {
        self.lng_microdeg
    }

    /// Validating constructor: succeeds exactly on coordinates within the
    /// geodetic range, and fails with `InvalidLatLng` otherwise.
    pub fn new(lat_microdeg: i64, lng_microdeg: i64) -> (r: Result<
        GeoPoint,
        SmallestEnclosingH3Error,
    >)
        ensures
            r is Ok <==> (-LAT_LIMIT_MICRODEG <= lat_microdeg <= LAT_LIMIT_MICRODEG
                && -LNG_LIMIT_MICRODEG <= lng_microdeg <= LNG_LIMIT_MICRODEG),
            r matches Ok(p) ==> p.spec_lat_microdeg() == lat_microdeg
                && p.spec_lng_microdeg() == lng_microdeg,
            r matches Err(e) ==> e is InvalidLatLng,
    {
        if lat_microdeg < -LAT_LIMIT_MICRODEG || lat_microdeg > LAT_LIMIT_MICRODEG
            || lng_microdeg < -LNG_LIMIT_MICRODEG || lng_microdeg > LNG_LIMIT_MICRODEG {
            Err(
                SmallestEnclosingH3Error::InvalidLatLng(
                    "coordinates outside the valid geodetic range".to_owned(),
                ),
            )
        } else {
            Ok(GeoPoint { lat_microdeg, lng_microdeg })
        }
    }

    /// The latitude, in microdegrees; always within the geodetic range.
    pub fn lat_microdeg(&self) -> (r: i64)
        ensures
            r == self.spec_lat_microdeg(),
            -LAT_LIMIT_MICRODEG <= r <= LAT_LIMIT_MICRODEG,
    {
        proof {
            use_type_invariant(self);
        }
        self.lat_microdeg
    }

    /// The longitude, in microdegrees; always within the geodetic range.
    pub fn lng_microdeg(&self) -> (r: i64)
        ensures
            r == self.spec_lng_microdeg(),
            -LNG_LIMIT_MICRODEG <= r <= LNG_LIMIT_MICRODEG,
    {
        proof {
            use_type_invariant(self);
        }
        self.lng_microdeg
    }
}

} // verus!
