//! Linear altitude interpolation for the takeoff and landing ramps, in
//! fixed-point millimetres: `z(elapsed) = z0 + (z1 - z0) * elapsed / duration`
//! with the interpolation factor clamped to `[0, 1]`, so the commanded value
//! never overshoots the end altitude.

use vstd::prelude::*;
use vstd::arithmetic::div_mod::{
    lemma_div_is_ordered, lemma_div_multiples_vanish, lemma_fundamental_div_mod,
    lemma_fundamental_div_mod_converse,
};
use vstd::arithmetic::mul::{lemma_mul_inequality, lemma_mul_is_commutative};

verus! {

/// Upper bound on a ramp duration (one day in milliseconds): keeps every
/// intermediate product inside machine range.
pub const MAX_RAMP_DURATION_MS: u64 = 86_400_000;

/// The commanded value of a linear ramp from `z0` to `z1` at `elapsed` out of
/// `duration`: exact integer interpolation, clamped at `z1` once the
/// duration has passed.
pub open spec fn ramp_value(z0: int, z1: int, elapsed: int, duration: int) -> int
    recommends
        0 < duration,
        0 <= elapsed,
{
    if elapsed >= duration {
        z1
    } else if z1 >= z0 {
        z0 + (z1 - z0) * elapsed / duration
    } else {
        z0 - (z0 - z1) * elapsed / duration
    }
}

/// The ramp never leaves the closed interval between its endpoints.
pub proof fn lemma_ramp_bounds(z0: int, z1: int, elapsed: int, duration: int)
    requires
        0 < duration,
        0 <= elapsed,
    ensures
        z0 <= z1 ==> z0 <= ramp_value(z0, z1, elapsed, duration) <= z1,
        z1 <= z0 ==> z1 <= ramp_value(z0, z1, elapsed, duration) <= z0,
{
    if elapsed < duration {
        if z1 >= z0 {
            lemma_off_bounds(z1 - z0, elapsed, duration);
        }
        if z1 <= z0 {
            lemma_off_bounds(z0 - z1, elapsed, duration);
        }
    }
}

/// The interpolation offset `delta * elapsed / duration` lies in
/// `[0, delta]` while the ramp is running.
proof fn lemma_off_bounds(delta: int, elapsed: int, duration: int)
    requires
        0 <= delta,
        0 < duration,
        0 <= elapsed < duration,
    ensures
        0 <= delta * elapsed / duration <= delta,
{
    lemma_mul_inequality(0, elapsed, delta);
    assert(0 <= delta * elapsed);
    lemma_div_is_ordered(0, delta * elapsed, duration);
    lemma_div_multiples_vanish(0, duration);
    lemma_mul_inequality(elapsed, duration, delta);
    assert(delta * elapsed <= delta * duration);
    lemma_div_is_ordered(delta * elapsed, delta * duration, duration);
    lemma_div_multiples_vanish(delta, duration);
}

/// Law: at `elapsed == 0` the ramp commands the start altitude, at
/// `elapsed == duration` the end altitude, and for every later reading it
/// stays clamped at the end altitude.
pub proof fn lemma_ramp_endpoints(z0: int, z1: int, elapsed: int, duration: int)
    requires
        0 < duration,
        0 <= elapsed,
    ensures
        ramp_value(z0, z1, 0, duration) == z0,
        elapsed >= duration ==> ramp_value(z0, z1, elapsed, duration) == z1,
{
    lemma_div_multiples_vanish(0, duration);
    assert((z1 - z0) * 0 == 0);
    assert((z0 - z1) * 0 == 0);
}

/// Law: at the half-way reading the ramp commands the arithmetic mean of the
/// endpoints, up to the one unit the integer division may round.
pub proof fn lemma_ramp_midpoint(z0: int, z1: int, elapsed: int, duration: int)
    requires
        0 < duration,
        duration == 2 * elapsed,
    ensures
        -1 <= 2 * ramp_value(z0, z1, elapsed, duration) - (z0 + z1) <= 1,
{
    assert(0 < elapsed);
    if z1 >= z0 {
        let delta = z1 - z0;
        let q = delta / 2;
        let r = delta % 2;
        lemma_fundamental_div_mod(delta, 2);
        assert(delta * elapsed == q * duration + r * elapsed) by (nonlinear_arith)
            requires
                delta == 2 * q + r,
                duration == 2 * elapsed,
        ;
        assert(0 <= r * elapsed < duration) by (nonlinear_arith)
            requires
                0 <= r < 2,
                0 < elapsed,
                duration == 2 * elapsed,
        ;
        lemma_fundamental_div_mod_converse(delta * elapsed, duration, q, r * elapsed);
        assert(ramp_value(z0, z1, elapsed, duration) == z0 + q);
    } else {
        let delta = z0 - z1;
        let q = delta / 2;
        let r = delta % 2;
        lemma_fundamental_div_mod(delta, 2);
        assert(delta * elapsed == q * duration + r * elapsed) by (nonlinear_arith)
            requires
                delta == 2 * q + r,
                duration == 2 * elapsed,
        ;
        assert(0 <= r * elapsed < duration) by (nonlinear_arith)
            requires
                0 <= r < 2,
                0 < elapsed,
                duration == 2 * elapsed,
        ;
        lemma_fundamental_div_mod_converse(delta * elapsed, duration, q, r * elapsed);
        assert(ramp_value(z0, z1, elapsed, duration) == z0 - q);
    }
}

/// Law: the commanded value moves monotonically from `z0` toward `z1` as
/// elapsed time grows (non-decreasing on a climb toward a higher value,
/// non-increasing on a descent).
pub proof fn lemma_ramp_monotone(z0: int, z1: int, e1: int, e2: int, duration: int)
    requires
        0 < duration,
        0 <= e1 <= e2,
    ensures
        z0 <= z1 ==> ramp_value(z0, z1, e1, duration) <= ramp_value(z0, z1, e2, duration),
        z1 <= z0 ==> ramp_value(z0, z1, e2, duration) <= ramp_value(z0, z1, e1, duration),
{
    lemma_ramp_bounds(z0, z1, e1, duration);
    lemma_ramp_bounds(z0, z1, e2, duration);
    if e2 < duration {
        if z0 <= z1 {
            lemma_mul_inequality(e1, e2, z1 - z0);
            lemma_mul_is_commutative(e1, z1 - z0);
            lemma_mul_is_commutative(e2, z1 - z0);
            lemma_div_is_ordered((z1 - z0) * e1, (z1 - z0) * e2, duration);
        }
        if z1 <= z0 {
            lemma_mul_inequality(e1, e2, z0 - z1);
            lemma_mul_is_commutative(e1, z0 - z1);
            lemma_mul_is_commutative(e2, z0 - z1);
            lemma_div_is_ordered((z0 - z1) * e1, (z0 - z1) * e2, duration);
        }
    }
}

/// Compute the ramp's commanded altitude at `elapsed_ms` into a ramp of
/// `duration_ms` from `z0` to `z1` (millimetres).
pub fn ramp_z(z0: i32, z1: i32, elapsed_ms: u64, duration_ms: u64) -> (z: i32)
    requires
        0 < duration_ms <= MAX_RAMP_DURATION_MS,
    ensures
        z == ramp_value(z0 as int, z1 as int, elapsed_ms as int, duration_ms as int),
        z0 <= z1 ==> z0 <= z <= z1,
        z1 <= z0 ==> z1 <= z <= z0,
{
    proof {
        lemma_ramp_bounds(z0 as int, z1 as int, elapsed_ms as int, duration_ms as int);
    }
    if elapsed_ms >= duration_ms {
        return z1;
    }
    if z1 >= z0 {
        let delta: u64 = (z1 as i64 - z0 as i64) as u64;
        proof {
            lemma_off_bounds(delta as int, elapsed_ms as int, duration_ms as int);
            assert(delta * elapsed_ms <= 0xffff_ffff * 86_400_000) by (nonlinear_arith)
                requires
                    delta <= 0xffff_ffff,
                    elapsed_ms <= 86_400_000,
            ;
        }
        let num: u64 = delta * elapsed_ms;
        let off: u64 = num / duration_ms;
        (z0 as i64 + off as i64) as i32
    } else {
        let delta: u64 = (z0 as i64 - z1 as i64) as u64;
        proof {
            lemma_off_bounds(delta as int, elapsed_ms as int, duration_ms as int);
            assert(delta * elapsed_ms <= 0xffff_ffff * 86_400_000) by (nonlinear_arith)
                requires
                    delta <= 0xffff_ffff,
                    elapsed_ms <= 86_400_000,
            ;
        }
        let num: u64 = delta * elapsed_ms;
        let off: u64 = num / duration_ms;
        (z0 as i64 - off as i64) as i32
    }
}

/// The altitudes a ramp commands when ticked every `tick_ms` from time zero:
/// one entry per full tick interval inside the duration, entry `i` being the
/// ramp's value at `i * tick_ms`.
pub fn ramp_schedule(z0: i32, z1: i32, duration_ms: u64, tick_ms: u64) -> (r: Vec<i32>)
    requires
        0 < duration_ms <= MAX_RAMP_DURATION_MS,
        0 < tick_ms,
    ensures
        r.len() == duration_ms as int / tick_ms as int,
        forall|i: int| 0 <= i < r.len()
            ==> r@[i] == ramp_value(z0 as int, z1 as int, i * tick_ms as int, duration_ms as int),
{
    let n: u64 = duration_ms / tick_ms;
    let mut out: Vec<i32> = Vec::new();
    let mut i: u64 = 0;
    while i < n
        invariant
            i <= n,
            n == duration_ms as int / tick_ms as int,
            0 < duration_ms <= MAX_RAMP_DURATION_MS,
            0 < tick_ms,
            out.len() == i,
            forall|j: int| 0 <= j < i
                ==> out@[j] == ramp_value(z0 as int, z1 as int, j * tick_ms as int, duration_ms as int),
        decreases n - i,
    {
        proof {
            lemma_fundamental_div_mod(duration_ms as int, tick_ms as int);
            lemma_mul_inequality(i as int, n as int - 1, tick_ms as int);
            assert(i * tick_ms <= (n - 1) * tick_ms);
            assert((n - 1) * tick_ms == n * tick_ms - tick_ms) by (nonlinear_arith);
            assert((i as int) * (tick_ms as int) < duration_ms);
        }
        let elapsed: u64 = i * tick_ms;
        out.push(ramp_z(z0, z1, elapsed, duration_ms));
        i = i + 1;
    }
    out
}

} // verus!
