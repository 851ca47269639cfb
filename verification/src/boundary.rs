use vstd::prelude::*;

verus! {

/// A full turn, in microdegrees (360 degrees).
pub const FULL_TURN_MICRODEG: u64 = 360_000_000;

/// The bearing of the i-th sample out of `num_points` uniform steps around a
/// full turn, in microdegrees: `i * 360e6 / num_points`, rounded down.
pub open spec fn bearing_microdeg(i: int, num_points: u32) -> int
    recommends
        num_points > 0,
{
    i * (FULL_TURN_MICRODEG as int) / (num_points as int)
}

/// The bearings at which the circle boundary is sampled: `num_points + 1`
/// uniform steps from due north (0) through a full turn (360 degrees), in
/// microdegrees and in sampling order.
pub fn circle_bearings(num_points: u32) -> (r: Vec<u64>)
    requires
        num_points >= 1,
        num_points < u32::MAX,
    ensures
        r@.len() == num_points + 1,
        forall|i: int| 0 <= i <= num_points ==> r@[i] == bearing_microdeg(i, num_points),
        r@[0] == 0,
        r@[num_points as int] == FULL_TURN_MICRODEG,
{
    let mut out: Vec<u64> = Vec::new();
    let mut i: u32 = 0;
    while i <= num_points
        invariant
            num_points >= 1,
            num_points < u32::MAX,
            i <= num_points + 1,
            out@.len() == i,
            forall|j: int| 0 <= j < i ==> out@[j] == bearing_microdeg(j, num_points),
        decreases num_points + 1 - i,
    {
        proof {
            assert((i as int) * (FULL_TURN_MICRODEG as int) <= 0xffff_ffff
                * (FULL_TURN_MICRODEG as int)) by (nonlinear_arith)
                requires
                    0 <= i <= 0xffff_ffff,
            ;
        }
        let b: u64 = (i as u64) * FULL_TURN_MICRODEG / (num_points as u64);
        out.push(b);
        i = i + 1;
    }
    proof {
        assert(out@[0] == bearing_microdeg(0, num_points));
        assert(out@[num_points as int] == bearing_microdeg(num_points as int, num_points));
        vstd::arithmetic::div_mod::lemma_div_of0(num_points as int);
        assert(bearing_microdeg(0, num_points) == 0);
        vstd::arithmetic::div_mod::lemma_div_multiples_vanish(
            FULL_TURN_MICRODEG as int,
            num_points as int,
        );
        assert((num_points as int) * (FULL_TURN_MICRODEG as int) == (FULL_TURN_MICRODEG as int)
            * (num_points as int)) by (nonlinear_arith);
        assert(bearing_microdeg(num_points as int, num_points) == FULL_TURN_MICRODEG);
    }
    out
}

/// Determinism of the boundary sampling: any two bearing sequences that meet
/// the contract of [`circle_bearings`] for the same sample count are equal.
pub proof fn lemma_bearings_deterministic(num_points: u32, r1: Seq<u64>, r2: Seq<u64>)
    requires
        num_points >= 1,
        r1.len() == num_points + 1,
        r2.len() == num_points + 1,
        forall|i: int| 0 <= i <= num_points ==> r1[i] == bearing_microdeg(i, num_points),
        forall|i: int| 0 <= i <= num_points ==> r2[i] == bearing_microdeg(i, num_points),
    ensures
        r1 == r2,
{
    assert(r1 =~= r2);
}

/// Closes a polygonal ring: a non-empty sequence of vertices gets its first
/// vertex appended once more, so that the first and last vertices are equal;
/// an empty sequence is returned unchanged.
pub fn close_ring<T: Copy>(points: Vec<T>) -> (r: Vec<T>)
    ensures
        points@.len() == 0 ==> r@ == points@,
        points@.len() > 0 ==> r@ == points@.push(points@[0]),
        points@.len() > 0 ==> r@[0] == r@[r@.len() - 1],
        points@.len() > 0 ==> r@.len() == points@.len() + 1,
{
    let mut out = points;
    if out.len() > 0 {
        let first = out[0];
        out.push(first);
    }
    out
}

/// Boundary closure: whenever a closed ring was produced from at least one
/// vertex, its first and last vertices are equal.
pub proof fn lemma_close_ring_closed<T>(points: Seq<T>, closed: Seq<T>)
    requires
        points.len() > 0,
        closed == points.push(points[0]),
    ensures
        closed.len() == points.len() + 1,
        closed[0] == closed[closed.len() - 1],
{
}

} // verus!
