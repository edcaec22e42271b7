//! DMX byte renderers: each maps one attribute value onto one or two channel
//! bytes and writes them into a frame buffer at an offset.
//!
//! A continuous value counts millionths of the unit. The full-scale factors
//! fall just short of a whole step (by one millionth), so that the top of
//! the input range lands on the last channel value instead of overflowing
//! it.

use vstd::prelude::*;
use crate::numeric::hi;
use crate::numeric::limit_bipolar_unit;
use crate::numeric::limit_bipolar_unit_i64;
use crate::numeric::limit_unipolar_unit;
use crate::numeric::limit_unipolar_unit_i64;
use crate::numeric::lo;
use crate::numeric::magnitude;
use crate::numeric::pairsort_u8;
use crate::numeric::UNIT;
use crate::range::BipolarDmxRangeMatrix;
use crate::range::BooleanDmxRangeMatrix;
use crate::range::DmxRange;
use crate::range::SpinDmxRangeMatrix;
use crate::range::UnipolarDmxRangeMatrix;

verus! {

/// The scale factor of one byte, in millionths: just under 256.
pub const BYTE_SCALE: u64 = 255_999_999;

/// The scale factor of a 16-bit pair, in millionths: just under 65536.
pub const DOUBLE_SCALE: u64 = 65_535_999_999;

/// The floor of the product of a fraction `n` and a factor `scale`, both in
/// millionths.
pub open spec fn scaled(n: int, scale: int) -> int {
    (n * scale) / 1_000_000_000_000
}

/// The factor that spreads the open unit interval over `span + 1` steps.
pub open spec fn span_scale(span: int) -> int {
    span * 1_000_000 + 999_999
}

/// The byte of a unipolar value: the clamped value times `BYTE_SCALE`,
/// rounded down.
pub open spec fn unipolar_byte(n: int) -> int {
    scaled(limit_unipolar_unit(n), BYTE_SCALE as int)
}

/// The byte of a bipolar value: the lower bound maps to 0, zero to 127, the
/// upper bound to 255.
pub open spec fn bipolar_byte(n: int) -> int {
    scaled(limit_bipolar_unit(n) + UNIT, BYTE_SCALE as int) / 2
}

/// The distance into a range of the given ends that a fraction `n` strictly
/// between zero and one reaches.
pub open spec fn range_step(n: int, first: int, last: int) -> int {
    scaled(n, span_scale(hi(first, last) - lo(first, last)))
}

/// A value interpolated from `first` (towards fraction zero) to `last`
/// (towards fraction one), whichever of the two is larger.
pub open spec fn interpolate(n: int, first: int, last: int) -> int {
    if first <= last {
        first + range_step(n, first, last)
    } else {
        first - range_step(n, first, last)
    }
}

/// The byte of a unipolar value under a range matrix: the ends map to the
/// first cell of their rows, and what lies between is interpolated along the
/// middle row.
pub open spec fn unipolar_range_byte(n: int, range: UnipolarDmxRangeMatrix) -> int {
    let nn = limit_unipolar_unit(n);
    if nn <= 0 {
        range.min.min as int
    } else if nn >= UNIT {
        range.max.min as int
    } else {
        interpolate(nn, range.mid.min as int, range.mid.max as int)
    }
}

/// The byte of a bipolar value under a range matrix: the two bounds and zero
/// map to the first cell of their rows. A positive value is interpolated
/// along the positive row, from its first cell near zero to its second near
/// the upper bound; a negative value along the negative row, from its
/// second cell near zero to its first near the lower bound.
pub open spec fn bipolar_range_byte(n: int, range: BipolarDmxRangeMatrix) -> int {
    let nn = limit_bipolar_unit(n);
    if nn == 0 {
        range.mid.min as int
    } else if nn <= -UNIT {
        range.min.min as int
    } else if nn >= UNIT {
        range.max.min as int
    } else if nn < 0 {
        interpolate(-nn, range.neg.max as int, range.neg.min as int)
    } else {
        interpolate(nn, range.pos.min as int, range.pos.max as int)
    }
}

/// The 16-bit level of a unipolar value.
pub open spec fn double_level(n: int) -> int {
    scaled(limit_unipolar_unit(n), DOUBLE_SCALE as int)
}

/// The byte of an index under a table of ranges: the first cell of the
/// indexed range, or 0 where the index misses the table.
pub open spec fn indexed_byte(n: int, range: Seq<DmxRange>) -> int {
    if 0 <= n < range.len() { range[n].min as int } else { 0 }
}

/// The byte of a boolean under a boolean matrix.
pub open spec fn boolean_byte(n: bool, range: BooleanDmxRangeMatrix) -> int {
    if n { range.t.min as int } else { range.f.min as int }
}

/// The direction byte of a spin: stop at zero, else by sign.
pub open spec fn spin_mode(n: int, range: SpinDmxRangeMatrix) -> int {
    let nn = limit_bipolar_unit(n);
    if nn == 0 {
        range.stop.min as int
    } else if nn > 0 {
        range.fwd.min as int
    } else {
        range.rev.min as int
    }
}

/// The speed byte of a spin: its clamped magnitude times `BYTE_SCALE`,
/// rounded down.
pub open spec fn spin_speed(n: int) -> int {
    scaled(magnitude(limit_bipolar_unit(n)), BYTE_SCALE as int)
}

/// A scaled fraction never exceeds the whole part of its factor.
pub proof fn lemma_scaled_bound(n: int, scale: int)
    requires
        0 <= n <= UNIT,
        0 <= scale,
    ensures
        0 <= scaled(n, scale) <= scale / 1_000_000,
        n == 0 ==> scaled(n, scale) == 0,
{
    assert(0 <= n * scale <= 1_000_000 * scale) by (nonlinear_arith)
        requires
            0 <= n <= 1_000_000,
            0 <= scale,
    ;
    assert(n == 0 ==> n * scale == 0) by (nonlinear_arith);
}

/// Scaling keeps the order of fractions: a larger value never renders to a
/// smaller level.
pub proof fn lemma_scaled_monotonic(a: int, b: int, scale: int)
    requires
        a <= b,
        0 <= scale,
    ensures
        scaled(a, scale) <= scaled(b, scale),
{
    assert(a * scale <= b * scale) by (nonlinear_arith)
        requires
            a <= b,
            0 <= scale,
    ;
}

/// An interpolated value starts at the first cell of its range and stays
/// between the two cells.
pub proof fn lemma_interpolate_between(n: int, first: int, last: int)
    requires
        0 <= n <= UNIT,
    ensures
        lo(first, last) <= interpolate(n, first, last) <= hi(first, last),
        n == 0 ==> interpolate(n, first, last) == first,
{
    lemma_scaled_bound(n, span_scale(hi(first, last) - lo(first, last)));
}

/// Which renderer an attribute uses, with the range matrix that the renderer
/// needs.
pub enum DmxAttributeRenderer {
    /// One byte from a unipolar value.
    DmxFloatRenderer,
    /// One byte from a bipolar value.
    DmxFloatBipolarRenderer,
    /// One byte from a bipolar value, under a range matrix.
    DmxFloatBipolarWithRangeRenderer(BipolarDmxRangeMatrix),
    /// One byte from a unipolar value, under a range matrix.
    DmxFloatUnipolarWithRangeRenderer(UnipolarDmxRangeMatrix),
    /// A big-endian pair of bytes from a unipolar value.
    DmxDoubleRenderer,
    /// One byte from an index into a table of ranges; an index that misses
    /// the table renders as 0.
    DmxIntIndexedWithRangeRenderer(Vec<DmxRange>),
    /// One byte from an index into a table of ranges; an index that misses
    /// the table is an error.
    DmxIntIndexedStrictRenderer(Vec<DmxRange>),
    /// One byte from a boolean: a discrete value other than zero is true.
    DmxBooleanWithRangeRenderer(BooleanDmxRangeMatrix),
    /// Two bytes, direction and speed, from a bipolar value.
    DmxSpinBipolar2ChWithRangeRenderer(SpinDmxRangeMatrix),
}

/// Multiplies a fraction by a factor, both in millionths, and rounds down.
fn scale_floor(n: u64, scale: u64) -> (r: u64)
    requires
        n <= UNIT,
        scale <= DOUBLE_SCALE,
    ensures
        r == scaled(n as int, scale as int),
        r <= scale / 1_000_000,
{
    proof {
        lemma_scaled_bound(n as int, scale as int);
        assert(n * scale <= 1_000_000 * 65_535_999_999) by (nonlinear_arith)
            requires
                n <= 1_000_000,
                scale <= 65_535_999_999,
        ;
    }
    (n * scale) / 1_000_000_000_000
}

/// Interpolates a fraction strictly inside the unit interval along a range,
/// from its first cell to its second.
fn interpolate_u8(n: u64, first: u8, last: u8) -> (r: u8)
    requires
        n <= UNIT,
    ensures
        r == interpolate(n as int, first as int, last as int),
{
    let (upper, lower) = pairsort_u8(first, last);
    let span: u64 = (upper - lower) as u64;
    let step: u64 = scale_floor(n, span * 1_000_000 + 999_999);
    if first <= last {
        first + step as u8
    } else {
        first - step as u8
    }
}

/// Maps a unipolar value evenly onto the byte range: clamps it, multiplies
/// by `BYTE_SCALE` and rounds down.
pub fn limit_unipolar_unit_to_u8(n: i64) -> (r: u8)
    ensures
        r == unipolar_byte(n as int),
        n <= 0 ==> r == 0,
        n >= UNIT ==> r == 255,
{
    let nn: u64 = limit_unipolar_unit_i64(n) as u64;
    proof {
        lemma_scaled_bound(0, BYTE_SCALE as int);
    }
    scale_floor(nn, BYTE_SCALE) as u8
}

/// Maps a bipolar value evenly onto the byte range: the lower bound gives
/// 0, zero gives 127 and the upper bound 255.
pub fn limit_bipolar_unit_to_u8(n: i64) -> (r: u8)
    ensures
        r == bipolar_byte(n as int),
        n <= -UNIT ==> r == 0,
        n == 0 ==> r == 127,
        n >= UNIT ==> r == 255,
{
    let shifted: u64 = (limit_bipolar_unit_i64(n) + UNIT) as u64;
    proof {
        assert((shifted * BYTE_SCALE) <= 2_000_000 * 255_999_999) by (nonlinear_arith)
            requires
                shifted <= 2_000_000,
                BYTE_SCALE == 255_999_999,
        ;
        assert(0 * 255_999_999 == 0);
    }
    ((shifted * BYTE_SCALE) / 1_000_000_000_000 / 2) as u8
}

/// Writes a unipolar value as one byte at `offset`, and returns the byte.
#[allow(non_snake_case)]
pub fn renderDmxFloat(n: i64, offset: usize, buffer: &mut Vec<u8>) -> (r: u8)
    requires
        offset < old(buffer).len(),
    ensures
        r == unipolar_byte(n as int),
        final(buffer)@ == old(buffer)@.update(offset as int, r),
{
    let r: u8 = limit_unipolar_unit_to_u8(n);
    buffer[offset] = r;
    r
}

/// Writes a bipolar value as one byte at `offset`, and returns the byte.
#[allow(non_snake_case)]
pub fn renderDmxFloatBipolar(n: i64, offset: usize, buffer: &mut Vec<u8>) -> (r: u8)
    requires
        offset < old(buffer).len(),
    ensures
        r == bipolar_byte(n as int),
        final(buffer)@ == old(buffer)@.update(offset as int, r),
{
    let r: u8 = limit_bipolar_unit_to_u8(n);
    buffer[offset] = r;
    r
}

/// Writes a bipolar value as one byte at `offset` under a range matrix, and
/// returns the byte.
#[allow(non_snake_case)]
pub fn renderDmxFloatBipolarWithRange(
    n: i64,
    range: &BipolarDmxRangeMatrix,
    offset: usize,
    buffer: &mut Vec<u8>,
) -> (r: u8)
    requires
        offset < old(buffer).len(),
    ensures
        r == bipolar_range_byte(n as int, *range),
        final(buffer)@ == old(buffer)@.update(offset as int, r),
{
    let nn: i64 = limit_bipolar_unit_i64(n);
    let r: u8 = if nn == 0 {
        range.mid.min
    } else if nn <= -UNIT {
        range.min.min
    } else if nn >= UNIT {
        range.max.min
    } else if nn < 0 {
        interpolate_u8((-nn) as u64, range.neg.max, range.neg.min)
    } else {
        interpolate_u8(nn as u64, range.pos.min, range.pos.max)
    };
    buffer[offset] = r;
    r
}

/// Writes a unipolar value as one byte at `offset` under a range matrix, and
/// returns the byte.
#[allow(non_snake_case)]
pub fn renderDmxFloatWithRange(
    n: i64,
    range: &UnipolarDmxRangeMatrix,
    offset: usize,
    buffer: &mut Vec<u8>,
) -> (r: u8)
    requires
        offset < old(buffer).len(),
    ensures
        r == unipolar_range_byte(n as int, *range),
        final(buffer)@ == old(buffer)@.update(offset as int, r),
{
    let nn: i64 = limit_unipolar_unit_i64(n);
    let r: u8 = if nn <= 0 {
        range.min.min
    } else if nn >= UNIT {
        range.max.min
    } else {
        interpolate_u8(nn as u64, range.mid.min, range.mid.max)
    };
    buffer[offset] = r;
    r
}

/// Writes a unipolar value as a big-endian pair of bytes at `offset` and
/// `offset + 1`, and returns the pair, high byte first.
#[allow(non_snake_case)]
pub fn renderDmxDouble(n: i64, offset: usize, buffer: &mut Vec<u8>) -> (r: (u8, u8))
    requires
        offset + 1 < old(buffer).len(),
    ensures
        r.0 == double_level(n as int) / 256,
        r.1 == double_level(n as int) % 256,
        final(buffer)@ == old(buffer)@.update(offset as int, r.0).update(offset + 1, r.1),
{
    let nn: u64 = limit_unipolar_unit_i64(n) as u64;
    let level: u64 = scale_floor(nn, DOUBLE_SCALE);
    let hsb: u8 = (level / 256) as u8;
    let lsb: u8 = (level % 256) as u8;
    buffer[offset] = hsb;
    buffer[offset + 1] = lsb;
    (hsb, lsb)
}

/// Writes the byte of an index at `offset`, and returns it. An index that
/// misses the table writes 0.
#[allow(non_snake_case)]
pub fn renderDmxIntIndexedWithRange(
    n: i64,
    range: &Vec<DmxRange>,
    offset: usize,
    buffer: &mut Vec<u8>,
) -> (r: u8)
    requires
        offset < old(buffer).len(),
    ensures
        r == indexed_byte(n as int, range@),
        final(buffer)@ == old(buffer)@.update(offset as int, r),
{
    let r: u8 = if 0 <= n && (n as u64) < range.len() as u64 {
        range[n as usize].min
    } else {
        0
    };
    buffer[offset] = r;
    r
}

/// Writes the byte of an index at `offset` and returns it, or writes nothing
/// and returns `None` where the index misses the table.
pub fn render_int_indexed_strict(
    n: i64,
    range: &Vec<DmxRange>,
    offset: usize,
    buffer: &mut Vec<u8>,
) -> (r: Option<u8>)
    requires
        offset < old(buffer).len(),
    ensures
        r.is_some() <==> 0 <= n < range@.len(),
        r matches Some(b) ==> b == range@[n as int].min && final(buffer)@ == old(buffer)@.update(
            offset as int,
            b,
        ),
        r.is_none() ==> final(buffer)@ == old(buffer)@,
{
    if 0 <= n && (n as u64) < range.len() as u64 {
        Some(renderDmxIntIndexedWithRange(n, range, offset, buffer))
    } else {
        None
    }
}

/// Writes the byte of a boolean at `offset`, and returns it.
#[allow(non_snake_case)]
pub fn renderDmxBooleanWithRange(
    n: bool,
    range: &BooleanDmxRangeMatrix,
    offset: usize,
    buffer: &mut Vec<u8>,
) -> (r: u8)
    requires
        offset < old(buffer).len(),
    ensures
        r == boolean_byte(n, *range),
        final(buffer)@ == old(buffer)@.update(offset as int, r),
{
    let r: u8 = if n { range.t.min } else { range.f.min };
    buffer[offset] = r;
    r
}

/// Writes a spin as two bytes, direction at `offset` and speed at
/// `offset + 1`, and returns the pair.
#[allow(non_snake_case)]
pub fn renderDmxSpinBipolar2ChWithRange(
    n: i64,
    range: &SpinDmxRangeMatrix,
    offset: usize,
    buffer: &mut Vec<u8>,
) -> (r: (u8, u8))
    requires
        offset + 1 < old(buffer).len(),
    ensures
        r.0 == spin_mode(n as int, *range),
        r.1 == spin_speed(n as int),
        final(buffer)@ == old(buffer)@.update(offset as int, r.0).update(offset + 1, r.1),
{
    let nn: i64 = limit_bipolar_unit_i64(n);
    let (mode, speed): (u8, u8) = if nn == 0 {
        proof {
            lemma_scaled_bound(0, BYTE_SCALE as int);
        }
        (range.stop.min, 0)
    } else if nn > 0 {
        (range.fwd.min, scale_floor(nn as u64, BYTE_SCALE) as u8)
    } else {
        (range.rev.min, scale_floor((-nn) as u64, BYTE_SCALE) as u8)
    };
    buffer[offset] = mode;
    buffer[offset + 1] = speed;
    (mode, speed)
}

/// Rendering one byte is idempotent: writing the same byte at the same
/// offset a second time leaves the buffer as the first write left it.
pub proof fn lemma_render_byte_idempotent(buffer: Seq<u8>, offset: int, byte: u8)
    requires
        0 <= offset < buffer.len(),
    ensures
        buffer.update(offset, byte).update(offset, byte) == buffer.update(offset, byte),
{
    assert(buffer.update(offset, byte).update(offset, byte) =~= buffer.update(offset, byte));
}

/// Rendering a pair of bytes is idempotent.
pub proof fn lemma_render_pair_idempotent(buffer: Seq<u8>, offset: int, first: u8, second: u8)
    requires
        0 <= offset,
        offset + 1 < buffer.len(),
    ensures
        buffer.update(offset, first).update(offset + 1, second).update(offset, first).update(
            offset + 1,
            second,
        ) == buffer.update(offset, first).update(offset + 1, second),
{
    assert(buffer.update(offset, first).update(offset + 1, second).update(offset, first).update(
        offset + 1,
        second,
    ) =~= buffer.update(offset, first).update(offset + 1, second));
}

} // verus!
