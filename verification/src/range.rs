//! Ranges of channel values, and the matrices that say which ranges encode
//! which attribute values. Ranges are inclusive. A range whose `min` exceeds
//! its `max` is a reverse range: it inverts the interpolation.

use vstd::prelude::*;

verus! {

/// An inclusive range of values.
#[derive(Clone, Copy, Debug)]
pub struct Range<T> {
    pub min: T,
    pub max: T,
}

/// A range of byte values, encoding one DMX channel.
pub type DmxRange = Range<u8>;

/// The five ranges of a bipolar attribute.
#[derive(Clone, Copy, Debug)]
pub struct BipolarChannelValueRangeMatrix<T> {
    /// Values equivalent to the lower bound.
    pub min: Range<T>,
    /// Values strictly between the lower bound and zero.
    pub neg: Range<T>,
    /// Values equivalent to zero.
    pub mid: Range<T>,
    /// Values strictly between zero and the upper bound.
    pub pos: Range<T>,
    /// Values equivalent to the upper bound.
    pub max: Range<T>,
}

/// An 8-bit bipolar range matrix.
pub type BipolarDmxRangeMatrix = BipolarChannelValueRangeMatrix<u8>;

/// The three ranges of a unipolar attribute.
#[derive(Clone, Copy, Debug)]
pub struct UnipolarRangeMatrix<T> {
    /// Values equivalent to zero.
    pub min: Range<T>,
    /// Values strictly between zero and the upper bound.
    pub mid: Range<T>,
    /// Values equivalent to the upper bound.
    pub max: Range<T>,
}

/// An 8-bit unipolar range matrix.
pub type UnipolarDmxRangeMatrix = UnipolarRangeMatrix<u8>;

/// The ranges that encode the direction of a spin: reverse, stop, forward.
#[derive(Clone, Copy, Debug)]
pub struct SpinRangeMatrix<T> {
    pub rev: Range<T>,
    pub stop: Range<T>,
    pub fwd: Range<T>,
}

/// An 8-bit spin matrix.
pub type SpinDmxRangeMatrix = SpinRangeMatrix<u8>;

/// The ranges that encode `false` and `true`.
#[derive(Clone, Copy, Debug)]
pub struct BooleanRangeMatrix<T> {
    pub f: Range<T>,
    pub t: Range<T>,
}

/// An 8-bit boolean matrix.
pub type BooleanDmxRangeMatrix = BooleanRangeMatrix<u8>;

} // verus!
