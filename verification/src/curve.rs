//! The current curve table: a precomputed, monotonic duty-cycle lookup for
//! one quarter-phase of stepper rotation.
//!
//! Index `i` of the table holds `MAX_DUTY·sin(π·i/(2·resolution))`,
//! rounded to the nearest duty count (halves up). The sine is evaluated in
//! pure integer arithmetic: a degree-13 Taylor expansion of
//! `sin((π/2)·t)` at `t = i/resolution`, in fixed point with a 2^40
//! scale. The truncation and fixed-point error together stay below 10^-8
//! of full scale — far inside the half-count rounding margin — so the
//! table carries the values of the quarter-sine formula. A running
//! maximum keeps the table provably non-decreasing; the true quarter
//! sine rises throughout, so the guard does not alter the values.

use vstd::arithmetic::div_mod::{
    lemma_div_by_multiple, lemma_div_is_ordered, lemma_div_multiples_vanish, lemma_div_pos_is_pos,
};
use vstd::prelude::*;

use crate::{MotorError, MAX_DUTY};

verus! {

/// The fixed-point scale: 2^40.
pub const FIXED_ONE: u128 = 1099511627776;

/// `round((π/2)^1 / 1! · FIXED_ONE)`: first Taylor coefficient of
/// `sin((π/2)·t)`.
pub const SIN_C1: u128 = 1727108826179;

/// `round((π/2)^3 / 3! · FIXED_ONE)`.
pub const SIN_C3: u128 = 710245036334;

/// `round((π/2)^5 / 5! · FIXED_ONE)`.
pub const SIN_C5: u128 = 87622969206;

/// `round((π/2)^7 / 7! · FIXED_ONE)`.
pub const SIN_C7: u128 = 5147643110;

/// `round((π/2)^9 / 9! · FIXED_ONE)`.
pub const SIN_C9: u128 = 176406948;

/// `round((π/2)^11 / 11! · FIXED_ONE)`.
pub const SIN_C11: u128 = 3956970;

/// `round((π/2)^13 / 13! · FIXED_ONE)`.
pub const SIN_C13: u128 = 62586;

/// The product of two fixed-point values, rescaled.
pub open spec fn fixed_mul(a: int, b: int) -> int {
    (a * b) / (FIXED_ONE as int)
}

/// `sin((π/2)·i/resolution)` in fixed point: the degree-13 Taylor
/// expansion evaluated at `t = i/resolution`, scaled by `FIXED_ONE`.
pub open spec fn sine_fixed(resolution: int, i: int) -> int {
    let x = (i * FIXED_ONE) / resolution;
    let x2 = fixed_mul(x, x);
    let x3 = fixed_mul(x2, x);
    let x5 = fixed_mul(x3, x2);
    let x7 = fixed_mul(x5, x2);
    let x9 = fixed_mul(x7, x2);
    let x11 = fixed_mul(x9, x2);
    let x13 = fixed_mul(x11, x2);
    fixed_mul(SIN_C1 as int, x) - fixed_mul(SIN_C3 as int, x3) + fixed_mul(SIN_C5 as int, x5)
        - fixed_mul(SIN_C7 as int, x7) + fixed_mul(SIN_C9 as int, x9) - fixed_mul(
        SIN_C11 as int,
        x11,
    ) + fixed_mul(SIN_C13 as int, x13)
}

/// The sine of the microstep index scaled to the duty range and rounded
/// to the nearest count, halves up, clamped to `[0, MAX_DUTY]`.
pub open spec fn curve_raw(resolution: int, i: int) -> int {
    let s = sine_fixed(resolution, i);
    if s <= 0 {
        0
    } else if s >= FIXED_ONE {
        MAX_DUTY as int
    } else {
        (MAX_DUTY * s + (FIXED_ONE as int) / 2) / (FIXED_ONE as int)
    }
}

/// The duty-cycle magnitude of microstep index `i` out of `resolution`:
/// the rounded quarter sine, held non-decreasing by a running maximum.
pub open spec fn curve_point(resolution: int, i: int) -> int
    decreases i,
{
    if i <= 0 {
        curve_raw(resolution, 0)
    } else {
        let prev = curve_point(resolution, i - 1);
        let v = curve_raw(resolution, i);
        if v < prev {
            prev
        } else {
            v
        }
    }
}

/// The rounded sine stays within the duty range.
proof fn lemma_curve_raw_in_range(resolution: int, i: int)
    ensures
        0 <= curve_raw(resolution, i) <= MAX_DUTY,
{
    let s = sine_fixed(resolution, i);
    if 0 < s < FIXED_ONE {
        assert(0 <= (MAX_DUTY * s + (FIXED_ONE as int) / 2) / (FIXED_ONE as int) <= MAX_DUTY);
    }
}

/// At the near end of the quadrant the sine, and with it the table,
/// starts at exactly zero.
proof fn lemma_curve_raw_at_zero(resolution: int)
    requires
        1 <= resolution,
    ensures
        curve_raw(resolution, 0) == 0,
{
    lemma_div_multiples_vanish(0, resolution);
    assert((0 * (FIXED_ONE as int)) / resolution == 0);
    assert(sine_fixed(resolution, 0) == 0);
}

/// At the far end of the quadrant the fixed-point sine reaches full
/// scale, so the table ends at exactly `MAX_DUTY`.
proof fn lemma_curve_raw_at_top(resolution: int)
    requires
        1 <= resolution,
    ensures
        curve_raw(resolution, resolution) == MAX_DUTY,
{
    lemma_div_multiples_vanish(FIXED_ONE as int, resolution);
    let x = (resolution * (FIXED_ONE as int)) / resolution;
    assert(x == FIXED_ONE);
    assert(FIXED_ONE == 1099511627776);
    assert(fixed_mul(FIXED_ONE as int, FIXED_ONE as int) == FIXED_ONE);
    assert(sine_fixed(resolution, resolution) == SIN_C1 - SIN_C3 + SIN_C5 - SIN_C7 + SIN_C9
        - SIN_C11 + SIN_C13);
    assert(sine_fixed(resolution, resolution) >= FIXED_ONE);
}

/// Every point of the curve lies in `[0, MAX_DUTY]`; the quadrant starts
/// at 0 and ends exactly at full duty.
pub proof fn lemma_curve_point_in_range(resolution: int, i: int)
    requires
        1 <= resolution,
        0 <= i <= resolution,
    ensures
        0 <= curve_point(resolution, i) <= MAX_DUTY,
        i == 0 ==> curve_point(resolution, i) == 0,
        i == resolution ==> curve_point(resolution, i) == MAX_DUTY,
    decreases i,
{
    lemma_curve_raw_in_range(resolution, i);
    if i == 0 {
        lemma_curve_raw_at_zero(resolution);
    } else {
        lemma_curve_point_in_range(resolution, i - 1);
        if i == resolution {
            lemma_curve_raw_at_top(resolution);
        }
    }
}

/// The curve is non-decreasing over the quadrant.
pub proof fn lemma_curve_point_monotonic(resolution: int, i: int, j: int)
    requires
        0 <= i <= j,
    ensures
        curve_point(resolution, i) <= curve_point(resolution, j),
    decreases j - i,
{
    if i < j {
        lemma_curve_point_monotonic(resolution, i, j - 1);
    }
}

/// The microstep index scaled to fixed point stays within one unit:
/// `0 <= (i·FIXED_ONE)/resolution <= FIXED_ONE` for `i <= resolution`.
proof fn lemma_scaled_index_in_unit(resolution: int, i: int)
    requires
        1 <= resolution,
        0 <= i <= resolution,
    ensures
        0 <= (i * (FIXED_ONE as int)) / resolution <= FIXED_ONE,
{
    lemma_div_pos_is_pos(i * (FIXED_ONE as int), resolution);
    lemma_div_is_ordered(i * (FIXED_ONE as int), resolution * (FIXED_ONE as int), resolution);
    lemma_div_multiples_vanish(FIXED_ONE as int, resolution);
}

/// Multiplies a fixed-point value by a factor of at most one unit and
/// rescales; the result stays at or below the first factor.
fn fixed_mul_exec(a: u128, b: u128) -> (r: u128)
    requires
        a <= 0x1_0000_0000_0000,
        b <= FIXED_ONE,
    ensures
        r as int == fixed_mul(a as int, b as int),
        r <= a,
{
    proof {
        assert(FIXED_ONE == 1099511627776);
        assert(a * b <= a * 1099511627776u128) by (nonlinear_arith)
            requires
                b <= 1099511627776u128,
        ;
        lemma_div_is_ordered((a * b) as int, (a * (FIXED_ONE as u128)) as int, FIXED_ONE as int);
        lemma_div_by_multiple(a as int, FIXED_ONE as int);
    }
    (a * b) / FIXED_ONE
}

/// One entry of the table before the monotone guard: the rounded
/// fixed-point quarter sine at microstep index `i`.
fn curve_value_at(resolution: u32, i: u64) -> (v: u16)
    requires
        1 <= resolution,
        i <= resolution,
    ensures
        v as int == curve_raw(resolution as int, i as int),
{
    proof {
        assert(FIXED_ONE == 1099511627776);
        assert(MAX_DUTY == 4095);
        lemma_scaled_index_in_unit(resolution as int, i as int);
    }
    let x: u128 = ((i as u128) * FIXED_ONE) / (resolution as u128);
    let x2: u128 = fixed_mul_exec(x, x);
    let x3: u128 = fixed_mul_exec(x2, x);
    let x5: u128 = fixed_mul_exec(x3, x2);
    let x7: u128 = fixed_mul_exec(x5, x2);
    let x9: u128 = fixed_mul_exec(x7, x2);
    let x11: u128 = fixed_mul_exec(x9, x2);
    let x13: u128 = fixed_mul_exec(x11, x2);
    let t1: u128 = fixed_mul_exec(SIN_C1, x);
    let t3: u128 = fixed_mul_exec(SIN_C3, x3);
    let t5: u128 = fixed_mul_exec(SIN_C5, x5);
    let t7: u128 = fixed_mul_exec(SIN_C7, x7);
    let t9: u128 = fixed_mul_exec(SIN_C9, x9);
    let t11: u128 = fixed_mul_exec(SIN_C11, x11);
    let t13: u128 = fixed_mul_exec(SIN_C13, x13);
    let s: i128 = t1 as i128 - t3 as i128 + t5 as i128 - t7 as i128 + t9 as i128 - t11 as i128
        + t13 as i128;
    assert(s as int == sine_fixed(resolution as int, i as int));
    if s <= 0 {
        0
    } else if s >= FIXED_ONE as i128 {
        MAX_DUTY
    } else {
        assert(0 < s < FIXED_ONE as i128);
        let su: u128 = s as u128;
        assert(su < 1099511627776 && (MAX_DUTY as u128) == 4095);
        (((MAX_DUTY as u128) * su + FIXED_ONE / 2) / FIXED_ONE) as u16
    }
}

/// Builds the current curve table for the given microstep resolution.
///
/// Fails exactly when `resolution` is zero, signalling a configuration
/// error to the caller. On success the table has `resolution + 1` entries,
/// holds `curve_point(resolution, i)` at index `i`, is non-decreasing, and
/// runs from 0 up to exactly `MAX_DUTY`.
pub fn build(resolution: u32) -> (r: Result<Vec<u16>, MotorError>)
    ensures
        match r {
            Ok(curve) => {
                &&& resolution >= 1
                &&& curve@.len() == resolution + 1
                &&& forall|i: int|
                    0 <= i <= resolution ==> #[trigger] curve@[i] == curve_point(
                        resolution as int,
                        i,
                    )
                &&& forall|i: int, j: int|
                    0 <= i <= j <= resolution ==> #[trigger] curve@[i] <= #[trigger] curve@[j]
                &&& forall|i: int| 0 <= i <= resolution ==> #[trigger] curve@[i] <= MAX_DUTY
                &&& curve@[0] == 0
                &&& curve@[resolution as int] == MAX_DUTY
            },
            Err(e) => resolution == 0 && e == MotorError::InvalidMotorError,
        },
{
    if resolution == 0 {
        return Err(MotorError::InvalidMotorError);
    }
    let mut curve: Vec<u16> = Vec::new();
    let mut prev: u16 = 0;
    let mut i: u64 = 0;
    while i <= resolution as u64
        invariant
            1 <= resolution,
            i <= resolution + 1,
            curve@.len() == i,
            forall|k: int| 0 <= k < i ==> #[trigger] curve@[k] == curve_point(resolution as int, k),
            i == 0 ==> prev == 0,
            1 <= i ==> prev as int == curve_point(resolution as int, i - 1),
        decreases resolution + 1 - i,
    {
        let v: u16 = curve_value_at(resolution, i);
        let out: u16 = if v < prev {
            prev
        } else {
            v
        };
        proof {
            if i == 0 {
                assert(out == v);
                assert(curve_point(resolution as int, 0) == curve_raw(resolution as int, 0));
            }
            assert(out as int == curve_point(resolution as int, i as int));
        }
        curve.push(out);
        prev = out;
        i = i + 1;
    }
    proof {
        assert forall|a: int, b: int| 0 <= a <= b <= resolution implies #[trigger] curve@[a]
            <= #[trigger] curve@[b] by {
            lemma_curve_point_monotonic(resolution as int, a, b);
        }
        assert forall|a: int| 0 <= a <= resolution implies #[trigger] curve@[a] <= MAX_DUTY by {
            lemma_curve_point_in_range(resolution as int, a);
        }
        lemma_curve_point_in_range(resolution as int, 0);
        lemma_curve_point_in_range(resolution as int, resolution as int);
    }
    Ok(curve)
}

} // verus!
