//! Blending primitives: each combines two attribute values into one.
//! Euclidian blenders clamp into the attribute's range, ring blenders wrap
//! around it.
//!
//! The `iblend` family blends discrete values within a range that the
//! caller gives. The `fblend` family blends continuous values, counted in
//! millionths of the unit, within the unipolar or the bipolar unit range.

use vstd::prelude::*;
use crate::numeric::half_away_from_zero;
use crate::numeric::half_away_from_zero_wide;
use crate::numeric::limit_euclid;
use crate::numeric::limit_euclid_wide;
use crate::numeric::magnitude;
use crate::numeric::median_torus;
use crate::numeric::median_torus_i64;
use crate::numeric::hi;
use crate::numeric::limit_bipolar_unit;
use crate::numeric::limit_unipolar_unit;
use crate::numeric::lo;
use crate::numeric::pairsort_i64;
use crate::numeric::wrap_torus;
use crate::numeric::wrap_torus_bipolar;
use crate::numeric::wrap_torus_bipolar_i64;
use crate::numeric::wrap_torus_bipolar_wide;
use crate::numeric::wrap_torus_unipolar;
use crate::numeric::wrap_torus_unipolar_i64;
use crate::numeric::wrap_torus_unipolar_wide;
use crate::numeric::wrap_torus_wide;
use crate::numeric::UNIT;

verus! {

/// The magnitude of a value, computed wide enough for the most negative one.
fn magnitude_wide(a: i64) -> (r: i128)
    ensures
        r == magnitude(a as int),
{
    if a < 0 { -(a as i128) } else { a as i128 }
}

/// Keeps `a` and discards `b`.
pub fn iblend_clobber(a: i64, _b: i64) -> (r: i64)
    ensures
        r == a,
{
    a
}

/// The sum of `a` and `b`, clamped into `[minimum, maximum]`.
pub fn iblend_euclid_add(a: i64, b: i64, minimum: i64, maximum: i64) -> (r: i64)
    ensures
        r == limit_euclid(a + b, minimum as int, maximum as int),
{
    limit_euclid_wide(a as i128 + b as i128, minimum, maximum)
}

/// The difference `a - b`, clamped into `[minimum, maximum]`.
pub fn iblend_euclid_subtract(a: i64, b: i64, minimum: i64, maximum: i64) -> (r: i64)
    ensures
        r == limit_euclid(a - b, minimum as int, maximum as int),
{
    limit_euclid_wide(a as i128 - b as i128, minimum, maximum)
}

/// The sum of `a` and `b`, wrapped around the ring `[minimum, maximum]`.
pub fn iblend_ring_add(a: i64, b: i64, minimum: i64, maximum: i64) -> (r: i64)
    requires
        minimum <= maximum,
    ensures
        r == wrap_torus(a + b, minimum as int, maximum as int),
        minimum <= r <= maximum,
{
    wrap_torus_wide(a as i128 + b as i128, minimum, maximum)
}

/// The difference `a - b`, wrapped around the ring `[minimum, maximum]`.
pub fn iblend_ring_subtract(a: i64, b: i64, minimum: i64, maximum: i64) -> (r: i64)
    requires
        minimum <= maximum,
    ensures
        r == wrap_torus(a - b, minimum as int, maximum as int),
        minimum <= r <= maximum,
{
    wrap_torus_wide(a as i128 - b as i128, minimum, maximum)
}

/// The mean of `a` and `b`, an exact half rounded away from zero, clamped
/// into `[minimum, maximum]`.
pub fn iblend_euclid_median(a: i64, b: i64, minimum: i64, maximum: i64) -> (r: i64)
    ensures
        r == limit_euclid(half_away_from_zero(a + b), minimum as int, maximum as int),
{
    limit_euclid_wide(half_away_from_zero_wide(a as i128 + b as i128), minimum, maximum)
}

/// The midpoint of the shorter arc between `a` and `b` around the ring
/// `[minimum, maximum]`.
pub fn iblend_ring_median(a: i64, b: i64, minimum: i64, maximum: i64) -> (r: i64)
    requires
        minimum <= maximum,
    ensures
        r == median_torus(a as int, b as int, minimum as int, maximum as int),
        minimum <= r <= maximum,
{
    median_torus_i64(a, b, minimum, maximum)
}

/// The larger of `a` and `b`.
pub fn iblend_euclid_max(a: i64, b: i64) -> (r: i64)
    ensures
        r == (if a >= b { a } else { b }),
{
    if a >= b { a } else { b }
}

/// The smaller of `a` and `b`.
pub fn iblend_euclid_min(a: i64, b: i64) -> (r: i64)
    ensures
        r == (if a < b { a } else { b }),
{
    if a < b { a } else { b }
}

/// The operand of greater magnitude; `a` where the magnitudes are equal.
pub fn iblend_euclid_abs_max(a: i64, b: i64) -> (r: i64)
    ensures
        r == (if magnitude(a as int) >= magnitude(b as int) { a } else { b }),
{
    if magnitude_wide(a) >= magnitude_wide(b) { a } else { b }
}

/// The operand of smaller magnitude; `b` where the magnitudes are equal.
pub fn iblend_euclid_abs_min(a: i64, b: i64) -> (r: i64)
    ensures
        r == (if magnitude(a as int) < magnitude(b as int) { a } else { b }),
{
    if magnitude_wide(a) < magnitude_wide(b) { a } else { b }
}

/// The quotient of `p` by `d`, rounded to the nearest integer, an exact
/// half upwards. Both are non-negative.
pub open spec fn nearest_ratio(p: int, d: int) -> int {
    (2 * p + d) / (2 * d)
}

/// The product of two continuous values, rounded to the nearest millionth
/// (an exact half away from zero) and held within the range of the integer
/// that carries it.
pub open spec fn continuous_product(a: int, b: int) -> int {
    let m = nearest_ratio(magnitude(a) * magnitude(b), UNIT as int);
    limit_euclid(if (a < 0) != (b < 0) { -m } else { m }, i64::MIN as int, i64::MAX as int)
}

/// The midpoint of the shorter way between two continuous values `upper >=
/// lower` that already lie on a ring of the given width. The way that stays
/// inside the range is taken unless the way across the seam is strictly
/// shorter; the midpoint of that way may lie beyond the upper end, and is
/// then still to be wrapped.
pub open spec fn continuous_ring_midpoint(upper: int, lower: int, width: int) -> int {
    if width - upper + lower < upper - lower {
        half_away_from_zero(upper + lower + width)
    } else {
        half_away_from_zero(upper + lower)
    }
}

/// The mean of two continuous values on the unipolar ring.
pub open spec fn ring_uni_mean(a: int, b: int) -> int {
    let wa = wrap_torus_unipolar(a);
    let wb = wrap_torus_unipolar(b);
    wrap_torus_unipolar(continuous_ring_midpoint(hi(wa, wb), lo(wa, wb), UNIT as int))
}

/// The mean of two continuous values on the bipolar ring.
pub open spec fn ring_bi_mean(a: int, b: int) -> int {
    let wa = wrap_torus_bipolar(a);
    let wb = wrap_torus_bipolar(b);
    wrap_torus_bipolar(continuous_ring_midpoint(hi(wa, wb), lo(wa, wb), 2 * UNIT))
}

/// Keeps `a` and discards `b`.
pub fn fblend_clobber(a: i64, _b: i64) -> (r: i64)
    ensures
        r == a,
{
    a
}

/// The larger of two continuous values.
pub fn fblend_euclid_max(a: i64, b: i64) -> (r: i64)
    ensures
        r == (if a >= b { a } else { b }),
{
    if a >= b { a } else { b }
}

/// The smaller of two continuous values.
pub fn fblend_euclid_min(a: i64, b: i64) -> (r: i64)
    ensures
        r == (if a < b { a } else { b }),
{
    if a < b { a } else { b }
}

/// The continuous value of greater magnitude; `a` where the magnitudes are
/// equal.
pub fn fblend_euclid_abs_max(a: i64, b: i64) -> (r: i64)
    ensures
        r == (if magnitude(a as int) >= magnitude(b as int) { a } else { b }),
{
    if magnitude_wide(a) >= magnitude_wide(b) { a } else { b }
}

/// The continuous value of smaller magnitude; `b` where the magnitudes are
/// equal.
pub fn fblend_euclid_abs_min(a: i64, b: i64) -> (r: i64)
    ensures
        r == (if magnitude(a as int) < magnitude(b as int) { a } else { b }),
{
    if magnitude_wide(a) < magnitude_wide(b) { a } else { b }
}

/// The sum of two continuous values, clamped into `[-UNIT, UNIT]`.
pub fn fblend_euclid_bi_add(a: i64, b: i64) -> (r: i64)
    ensures
        r == limit_bipolar_unit(a + b),
{
    limit_euclid_wide(a as i128 + b as i128, -UNIT, UNIT)
}

/// The difference of two continuous values, clamped into `[-UNIT, UNIT]`.
pub fn fblend_euclid_bi_subtract(a: i64, b: i64) -> (r: i64)
    ensures
        r == limit_bipolar_unit(a - b),
{
    limit_euclid_wide(a as i128 - b as i128, -UNIT, UNIT)
}

/// The sum of two continuous values, clamped into `[0, UNIT]`.
pub fn fblend_euclid_uni_add(a: i64, b: i64) -> (r: i64)
    ensures
        r == limit_unipolar_unit(a + b),
{
    limit_euclid_wide(a as i128 + b as i128, 0, UNIT)
}

/// The difference of two continuous values, clamped into `[0, UNIT]`.
pub fn fblend_euclid_uni_subtract(a: i64, b: i64) -> (r: i64)
    ensures
        r == limit_unipolar_unit(a - b),
{
    limit_euclid_wide(a as i128 - b as i128, 0, UNIT)
}

/// The sum of two continuous values, wrapped around the unipolar ring.
pub fn fblend_ring_uni_add(a: i64, b: i64) -> (r: i64)
    ensures
        r == wrap_torus_unipolar(a + b),
        0 <= r <= UNIT,
{
    wrap_torus_unipolar_wide(a as i128 + b as i128)
}

/// The difference of two continuous values, wrapped around the unipolar
/// ring.
pub fn fblend_ring_uni_subtract(a: i64, b: i64) -> (r: i64)
    ensures
        r == wrap_torus_unipolar(a - b),
        0 <= r <= UNIT,
{
    wrap_torus_unipolar_wide(a as i128 - b as i128)
}

/// The sum of two continuous values, wrapped around the bipolar ring.
pub fn fblend_ring_bi_add(a: i64, b: i64) -> (r: i64)
    ensures
        r == wrap_torus_bipolar(a + b),
        -UNIT <= r <= UNIT,
{
    wrap_torus_bipolar_wide(a as i128 + b as i128)
}

/// The difference of two continuous values, wrapped around the bipolar
/// ring.
pub fn fblend_ring_bi_subtract(a: i64, b: i64) -> (r: i64)
    ensures
        r == wrap_torus_bipolar(a - b),
        -UNIT <= r <= UNIT,
{
    wrap_torus_bipolar_wide(a as i128 - b as i128)
}

/// The mean of two continuous values, rounded to the nearest millionth, an
/// exact half away from zero.
pub fn fblend_euclid_mean(a: i64, b: i64) -> (r: i64)
    ensures
        r == half_away_from_zero(a + b),
{
    half_away_from_zero_wide(a as i128 + b as i128) as i64
}

/// The product of two continuous values, rounded to the nearest millionth.
/// Two values of the unit range give a value of the unit range.
pub fn fblend_euclid_multiply(a: i64, b: i64) -> (r: i64)
    ensures
        r == continuous_product(a as int, b as int),
        -UNIT <= a <= UNIT && -UNIT <= b <= UNIT ==> -UNIT <= r <= UNIT,
        0 <= a <= UNIT && 0 <= b <= UNIT ==> 0 <= r <= UNIT,
{
    let ma: u128 = magnitude_wide(a) as u128;
    let mb: u128 = magnitude_wide(b) as u128;
    proof {
        assert(ma * mb <= 0x8000_0000_0000_0000 * 0x8000_0000_0000_0000) by (nonlinear_arith)
            requires
                ma <= 0x8000_0000_0000_0000,
                mb <= 0x8000_0000_0000_0000,
        ;
        if ma <= 1_000_000 && mb <= 1_000_000 {
            assert(ma * mb <= 1_000_000 * 1_000_000) by (nonlinear_arith)
                requires
                    ma <= 1_000_000,
                    mb <= 1_000_000,
            ;
        }
    }
    let m: u128 = (2 * (ma * mb) + 1_000_000) / 2_000_000;
    let signed: i128 = if (a < 0) != (b < 0) { -(m as i128) } else { m as i128 };
    limit_euclid_wide(signed, i64::MIN, i64::MAX)
}

/// The midpoint of the shorter way between two values on a ring.
fn ring_midpoint(upper: i64, lower: i64, width: i64) -> (r: i128)
    requires
        -2 * UNIT <= lower <= upper <= 2 * UNIT,
        0 < width <= 2 * UNIT,
    ensures
        r == continuous_ring_midpoint(upper as int, lower as int, width as int),
        -4 * UNIT <= r <= 4 * UNIT,
{
    if width - upper + lower < upper - lower {
        half_away_from_zero_wide(upper as i128 + lower as i128 + width as i128)
    } else {
        half_away_from_zero_wide(upper as i128 + lower as i128)
    }
}

/// The mean of two continuous values on the unipolar ring: the midpoint of
/// the shorter way between them, around the seam where that is shorter.
pub fn fblend_ring_uni_mean(a: i64, b: i64) -> (r: i64)
    ensures
        r == ring_uni_mean(a as int, b as int),
        0 <= r <= UNIT,
{
    let (upper, lower) = pairsort_i64(wrap_torus_unipolar_i64(a), wrap_torus_unipolar_i64(b));
    wrap_torus_unipolar_wide(ring_midpoint(upper, lower, UNIT))
}

/// The mean of two continuous values on the bipolar ring: the midpoint of
/// the shorter way between them, around the seam where that is shorter.
pub fn fblend_ring_bi_mean(a: i64, b: i64) -> (r: i64)
    ensures
        r == ring_bi_mean(a as int, b as int),
        -UNIT <= r <= UNIT,
{
    let (upper, lower) = pairsort_i64(wrap_torus_bipolar_i64(a), wrap_torus_bipolar_i64(b));
    wrap_torus_bipolar_wide(ring_midpoint(upper, lower, 2 * UNIT))
}

} // verus!
