//! Wrapping, limiting and ordering primitives.
//!
//! A *euclidian* space is bounded and clamps; a *torus* (ring) is periodic
//! and wraps. All ranges are inclusive at both ends.
//!
//! A discrete value is an integer. A continuous value is a signed
//! fixed-point number that counts millionths of the unit: `UNIT` stands for
//! one, so the unipolar unit range is `[0, UNIT]` and the bipolar one
//! `[-UNIT, UNIT]`.

use vstd::prelude::*;
use vstd::arithmetic::div_mod::lemma_fundamental_div_mod;
use vstd::arithmetic::div_mod::lemma_fundamental_div_mod_converse;

verus! {

/// One whole unit of a continuous value, in millionths.
pub const UNIT: i64 = 1_000_000;

/// The larger of two integers.
pub open spec fn hi(a: int, b: int) -> int {
    if a < b { b } else { a }
}

/// The smaller of two integers.
pub open spec fn lo(a: int, b: int) -> int {
    if a < b { a } else { b }
}

/// The absolute value of an integer.
pub open spec fn magnitude(a: int) -> int {
    if a < 0 { -a } else { a }
}

/// `n` clamped into `[minimum, maximum]`. The upper limit is tested first,
/// so it wins where the limits are crossed.
pub open spec fn limit_euclid(n: int, minimum: int, maximum: int) -> int {
    if n >= maximum {
        maximum
    } else if n <= minimum {
        minimum
    } else {
        n
    }
}

/// `n` clamped into the unipolar unit range `[0, UNIT]`.
pub open spec fn limit_unipolar_unit(n: int) -> int {
    if n >= UNIT { UNIT as int } else if n <= 0 { 0 } else { n }
}

/// `n` clamped into the bipolar unit range `[-UNIT, UNIT]`.
pub open spec fn limit_bipolar_unit(n: int) -> int {
    if n >= UNIT { UNIT as int } else if n <= -UNIT { -UNIT as int } else { n }
}

/// The number of points on the ring `[minimum, maximum]`.
pub open spec fn ring_width(minimum: int, maximum: int) -> int {
    maximum - minimum + 1
}

/// `n` wrapped onto the ring `[minimum, maximum]`: the one point of the ring
/// that differs from `n` by a whole number of ring widths.
pub open spec fn wrap_torus(n: int, minimum: int, maximum: int) -> int {
    minimum + (n - minimum) % ring_width(minimum, maximum)
}

/// A continuous value wrapped onto the unipolar ring `[0, UNIT]`, whose two
/// ends are one point. What lies inside stays; what lies above wraps into
/// `(0, UNIT]`, so that a whole number of turns above lands on the upper
/// end; what lies below wraps into `[0, UNIT)`.
pub open spec fn wrap_torus_unipolar(n: int) -> int {
    if n > UNIT {
        wrap_torus(n, 1, UNIT as int)
    } else if n < 0 {
        wrap_torus(n, 0, UNIT - 1)
    } else {
        n
    }
}

/// A continuous value wrapped onto the bipolar ring `[-UNIT, UNIT]`, whose
/// two ends are one point. What lies inside stays; what lies above wraps
/// into `(-UNIT, UNIT]`, what lies below into `[-UNIT, UNIT)`.
pub open spec fn wrap_torus_bipolar(n: int) -> int {
    if n > UNIT {
        wrap_torus(n, 1 - UNIT, UNIT as int)
    } else if n < -UNIT {
        wrap_torus(n, -UNIT as int, UNIT - 1)
    } else {
        n
    }
}

/// Half of `s`, with an exact half rounded away from zero.
pub open spec fn half_away_from_zero(s: int) -> int {
    if s >= 0 { (s + 1) / 2 } else { -((1 - s) / 2) }
}

/// The midpoint of the shorter arc between two points `upper >= lower` that
/// already lie on the ring. The arc that stays inside the range (the low
/// road) is taken unless the arc across the seam (the high road) is strictly
/// shorter, so antipodal points take the low road.
pub open spec fn median_on_ring(upper: int, lower: int, minimum: int, maximum: int) -> int {
    let width = ring_width(minimum, maximum);
    let d = upper - lower;
    if width - d < d {
        let n = half_away_from_zero(upper + lower + width);
        if n > maximum { n - width } else { n }
    } else {
        half_away_from_zero(upper + lower)
    }
}

/// The midpoint of the shorter arc between `a` and `b`, both first wrapped
/// onto the ring `[minimum, maximum]`.
pub open spec fn median_torus(a: int, b: int, minimum: int, maximum: int) -> int {
    let wa = wrap_torus(a, minimum, maximum);
    let wb = wrap_torus(b, minimum, maximum);
    median_on_ring(hi(wa, wb), lo(wa, wb), minimum, maximum)
}

/// Orders a pair of bytes, larger first.
pub fn pairsort_u8(a: u8, b: u8) -> (r: (u8, u8))
    ensures
        r.0 == hi(a as int, b as int),
        r.1 == lo(a as int, b as int),
{
    if a < b { (b, a) } else { (a, b) }
}

/// Orders a pair of integers, larger first.
pub fn pairsort_i64(a: i64, b: i64) -> (r: (i64, i64))
    ensures
        r.0 == hi(a as int, b as int),
        r.1 == lo(a as int, b as int),
{
    if a < b { (b, a) } else { (a, b) }
}

/// Clamps `n` into `[minimum, maximum]`.
pub fn limit_euclid_i64(n: i64, minimum: i64, maximum: i64) -> (r: i64)
    ensures
        r == limit_euclid(n as int, minimum as int, maximum as int),
        minimum <= maximum ==> minimum <= r <= maximum,
        minimum <= n <= maximum ==> r == n,
{
    if n >= maximum {
        maximum
    } else if n <= minimum {
        minimum
    } else {
        n
    }
}

/// Clamps a continuous value into `[0, UNIT]`.
pub fn limit_unipolar_unit_i64(n: i64) -> (r: i64)
    ensures
        r == limit_unipolar_unit(n as int),
        0 <= r <= UNIT,
        0 <= n <= UNIT ==> r == n,
{
    if n >= UNIT { UNIT } else if n <= 0 { 0 } else { n }
}

/// Clamps a continuous value into `[-UNIT, UNIT]`.
pub fn limit_bipolar_unit_i64(n: i64) -> (r: i64)
    ensures
        r == limit_bipolar_unit(n as int),
        -UNIT <= r <= UNIT,
        -UNIT <= n <= UNIT ==> r == n,
{
    if n >= UNIT { UNIT } else if n <= -UNIT { -UNIT } else { n }
}

/// Clamps a wide intermediate value into `[minimum, maximum]`.
pub(crate) fn limit_euclid_wide(n: i128, minimum: i64, maximum: i64) -> (r: i64)
    ensures
        r == limit_euclid(n as int, minimum as int, maximum as int),
{
    if n >= maximum as i128 {
        maximum
    } else if n <= minimum as i128 {
        minimum
    } else {
        n as i64
    }
}

/// Wraps a wide intermediate value onto the ring `[minimum, maximum]` with a
/// single remainder operation.
pub(crate) fn wrap_torus_wide(n: i128, minimum: i64, maximum: i64) -> (r: i64)
    requires
        minimum <= maximum,
        -0x2_0000_0000_0000_0000 <= n <= 0x2_0000_0000_0000_0000,
    ensures
        r == wrap_torus(n as int, minimum as int, maximum as int),
        minimum <= r <= maximum,
{
    let width: u128 = (maximum as i128 - minimum as i128 + 1) as u128;
    let base: i128 = minimum as i128;
    if n >= base {
        let off: u128 = (n - base) as u128;
        let rem: u128 = off % width;
        proof {
            lemma_fundamental_div_mod(off as int, width as int);
        }
        (base + rem as i128) as i64
    } else {
        let below: u128 = (base - n) as u128;
        let rem: u128 = below % width;
        let quot: u128 = below / width;
        proof {
            let w = width as int;
            lemma_fundamental_div_mod(below as int, w);
            assert(below as int == w * (quot as int) + rem as int);
            if rem == 0 {
                assert(n - base == (-(quot as int)) * w + 0) by (nonlinear_arith)
                    requires
                        below as int == w * (quot as int) + rem as int,
                        rem == 0,
                        n - base == -(below as int),
                ;
                lemma_fundamental_div_mod_converse(n - base, w, -(quot as int), 0);
            } else {
                assert(n - base == (-(quot as int) - 1) * w + (w - rem as int)) by (nonlinear_arith)
                    requires
                        below as int == w * (quot as int) + rem as int,
                        n - base == -(below as int),
                ;
                lemma_fundamental_div_mod_converse(
                    n - base,
                    w,
                    -(quot as int) - 1,
                    w - rem as int,
                );
            }
        }
        if rem == 0 {
            minimum
        } else {
            (base + (width - rem) as i128) as i64
        }
    }
}

/// Wraps `n` onto the ring `[minimum, maximum]`, however far outside it lies.
pub fn wrap_torus_i64(n: i64, minimum: i64, maximum: i64) -> (r: i64)
    requires
        minimum <= maximum,
    ensures
        r == wrap_torus(n as int, minimum as int, maximum as int),
        minimum <= r <= maximum,
        minimum <= n <= maximum ==> r == n,
{
    proof {
        lemma_wrap_torus_fixes_ring(n as int, minimum as int, maximum as int);
    }
    wrap_torus_wide(n as i128, minimum, maximum)
}

/// Wraps a wide intermediate value onto the unipolar ring.
pub(crate) fn wrap_torus_unipolar_wide(n: i128) -> (r: i64)
    requires
        -0x2_0000_0000_0000_0000 <= n <= 0x2_0000_0000_0000_0000,
    ensures
        r == wrap_torus_unipolar(n as int),
        0 <= r <= UNIT,
{
    if n > UNIT as i128 {
        wrap_torus_wide(n, 1, UNIT)
    } else if n < 0 {
        wrap_torus_wide(n, 0, UNIT - 1)
    } else {
        n as i64
    }
}

/// Wraps a wide intermediate value onto the bipolar ring.
pub(crate) fn wrap_torus_bipolar_wide(n: i128) -> (r: i64)
    requires
        -0x2_0000_0000_0000_0000 <= n <= 0x2_0000_0000_0000_0000,
    ensures
        r == wrap_torus_bipolar(n as int),
        -UNIT <= r <= UNIT,
{
    if n > UNIT as i128 {
        wrap_torus_wide(n, 1 - UNIT, UNIT)
    } else if n < -(UNIT as i128) {
        wrap_torus_wide(n, -UNIT, UNIT - 1)
    } else {
        n as i64
    }
}

/// Wraps a continuous value onto the unipolar ring `[0, UNIT]`. A whole
/// number of turns above the ring lands on `UNIT`, not on 0.
pub fn wrap_torus_unipolar_i64(n: i64) -> (r: i64)
    ensures
        r == wrap_torus_unipolar(n as int),
        0 <= r <= UNIT,
        0 <= n <= UNIT ==> r == n,
        (r - n) % (UNIT as int) == 0,
        n > UNIT && n as int % (UNIT as int) == 0 ==> r == UNIT,
        n < 0 && n as int % (UNIT as int) == 0 ==> r == 0,
{
    proof {
        lemma_wrap_torus_congruent(n as int, 1, UNIT as int);
        lemma_wrap_torus_congruent(n as int, 0, UNIT - 1);
        assert(0int % 1_000_000 == 0);
        if n > UNIT && n as int % 1_000_000 == 0 {
            assert((n - 1) % 1_000_000 == 999_999);
        }
    }
    wrap_torus_unipolar_wide(n as i128)
}

/// Wraps a continuous value onto the bipolar ring `[-UNIT, UNIT]`. A whole
/// number of turns above the upper end lands on `UNIT`, not on `-UNIT`.
pub fn wrap_torus_bipolar_i64(n: i64) -> (r: i64)
    ensures
        r == wrap_torus_bipolar(n as int),
        -UNIT <= r <= UNIT,
        -UNIT <= n <= UNIT ==> r == n,
        (r - n) % (2 * UNIT) == 0,
        n > UNIT && (n - UNIT) % (2 * UNIT) == 0 ==> r == UNIT,
        n < -UNIT && (n + UNIT) % (2 * UNIT) == 0 ==> r == -UNIT,
{
    proof {
        lemma_wrap_torus_congruent(n as int, 1 - UNIT, UNIT as int);
        lemma_wrap_torus_congruent(n as int, -UNIT as int, UNIT - 1);
        assert(2 * UNIT == 2_000_000);
        assert(0int % 2_000_000 == 0);
    }
    wrap_torus_bipolar_wide(n as i128)
}

/// Halves a wide sum, rounding an exact half away from zero.
pub(crate) fn half_away_from_zero_wide(s: i128) -> (r: i128)
    requires
        -0x4_0000_0000_0000_0000 <= s <= 0x4_0000_0000_0000_0000,
    ensures
        r == half_away_from_zero(s as int),
{
    if s >= 0 { (s + 1) / 2 } else { -((1 - s) / 2) }
}

/// The midpoint of the shorter arc between `a` and `b` around the ring
/// `[minimum, maximum]`. The order of `a` and `b` does not matter, and
/// antipodal points take the arc that stays inside the range.
pub fn median_torus_i64(a: i64, b: i64, minimum: i64, maximum: i64) -> (r: i64)
    requires
        minimum <= maximum,
    ensures
        r == median_torus(a as int, b as int, minimum as int, maximum as int),
        minimum <= r <= maximum,
{
    let (upper, lower) = pairsort_i64(
        wrap_torus_i64(a, minimum, maximum),
        wrap_torus_i64(b, minimum, maximum),
    );
    let width: i128 = maximum as i128 - minimum as i128 + 1;
    let d: i128 = upper as i128 - lower as i128;
    if width - d < d {
        let n: i128 = half_away_from_zero_wide(upper as i128 + lower as i128 + width);
        if n > maximum as i128 { (n - width) as i64 } else { n as i64 }
    } else {
        half_away_from_zero_wide(upper as i128 + lower as i128) as i64
    }
}

/// A point that already lies on the ring is its own wrapping.
pub proof fn lemma_wrap_torus_fixes_ring(n: int, minimum: int, maximum: int)
    requires
        minimum <= maximum,
    ensures
        minimum <= wrap_torus(n, minimum, maximum) <= maximum,
        minimum <= n <= maximum ==> wrap_torus(n, minimum, maximum) == n,
{
    let w = ring_width(minimum, maximum);
    vstd::arithmetic::div_mod::lemma_mod_bound(n - minimum, w);
    if minimum <= n <= maximum {
        vstd::arithmetic::div_mod::lemma_small_mod((n - minimum) as nat, w as nat);
    }
}

/// A wrapped value differs from the value by a whole number of ring widths.
pub proof fn lemma_wrap_torus_congruent(n: int, minimum: int, maximum: int)
    requires
        minimum <= maximum,
    ensures
        (wrap_torus(n, minimum, maximum) - n) % ring_width(minimum, maximum) == 0,
{
    let w = ring_width(minimum, maximum);
    let x = n - minimum;
    lemma_fundamental_div_mod(x, w);
    assert(wrap_torus(n, minimum, maximum) - n == (-(x / w)) * w + 0) by (nonlinear_arith)
        requires
            x == w * (x / w) + (x % w),
            wrap_torus(n, minimum, maximum) - n == (x % w) - x,
    ;
    lemma_fundamental_div_mod_converse(wrap_torus(n, minimum, maximum) - n, w, -(x / w), 0);
}

/// Wrapping onto the unipolar ring is idempotent.
pub proof fn lemma_wrap_torus_unipolar_idempotent(n: int)
    ensures
        0 <= wrap_torus_unipolar(n) <= UNIT,
        wrap_torus_unipolar(wrap_torus_unipolar(n)) == wrap_torus_unipolar(n),
{
    lemma_wrap_torus_fixes_ring(n, 1, UNIT as int);
    lemma_wrap_torus_fixes_ring(n, 0, UNIT - 1);
}

/// Wrapping onto the bipolar ring is idempotent.
pub proof fn lemma_wrap_torus_bipolar_idempotent(n: int)
    ensures
        -UNIT <= wrap_torus_bipolar(n) <= UNIT,
        wrap_torus_bipolar(wrap_torus_bipolar(n)) == wrap_torus_bipolar(n),
{
    lemma_wrap_torus_fixes_ring(n, 1 - UNIT, UNIT as int);
    lemma_wrap_torus_fixes_ring(n, -UNIT as int, UNIT - 1);
}

/// Wrapping is idempotent: wrapping a wrapped value changes nothing.
pub proof fn lemma_wrap_torus_idempotent(n: int, minimum: int, maximum: int)
    requires
        minimum <= maximum,
    ensures
        wrap_torus(wrap_torus(n, minimum, maximum), minimum, maximum) == wrap_torus(
            n,
            minimum,
            maximum,
        ),
{
    lemma_wrap_torus_fixes_ring(n, minimum, maximum);
    lemma_wrap_torus_fixes_ring(wrap_torus(n, minimum, maximum), minimum, maximum);
}

/// The ring median does not depend on the order of its two operands.
pub proof fn lemma_median_torus_symmetric(a: int, b: int, minimum: int, maximum: int)
    requires
        minimum <= maximum,
    ensures
        median_torus(a, b, minimum, maximum) == median_torus(b, a, minimum, maximum),
{
}

/// The ring median lies on the ring.
pub proof fn lemma_median_torus_on_ring(a: int, b: int, minimum: int, maximum: int)
    requires
        minimum <= maximum,
    ensures
        minimum <= median_torus(a, b, minimum, maximum) <= maximum,
{
    lemma_wrap_torus_fixes_ring(a, minimum, maximum);
    lemma_wrap_torus_fixes_ring(b, minimum, maximum);
}

} // verus!
