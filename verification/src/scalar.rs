//! Single-precision values carried as raw bit patterns.
//!
//! The configuration fields of a window descriptor (size, content size,
//! background alpha) are single-precision engine units. The verified logic
//! never does arithmetic on them: it only asks whether a value is zero or
//! finite, and both questions are pure functions of the IEEE-754 bit
//! pattern. A `Scalar` therefore holds the 32-bit pattern itself, and the
//! two questions are answered by bit tests.

use vstd::prelude::*;

verus! {

/// Mask of the sign bit: the bits that do not distinguish `+0` from `-0`.
pub const MAGNITUDE_MASK: u32 = 0x7fff_ffff;

/// Mask selecting the eight exponent bits once the sign bit is dropped.
pub const EXPONENT_MASK: u32 = 0x7f80_0000;

/// The bit pattern of a quiet NaN, used as the "unset" sentinel for the
/// background alpha of a freshly constructed descriptor.
pub const UNSET_BITS: u32 = 0x7fc0_0000;

/// A single-precision value compares equal to zero exactly when every bit
/// but the sign bit is clear (`+0` and `-0` both count as zero).
pub open spec fn bits_are_zero(bits: u32) -> bool {
    bits & MAGNITUDE_MASK == 0
}

/// A single-precision value is finite exactly when its exponent bits are
/// not all ones (all ones encodes an infinity or a NaN).
pub open spec fn bits_are_finite(bits: u32) -> bool {
    bits & EXPONENT_MASK != EXPONENT_MASK
}

/// A single-precision engine unit, held as its raw bit pattern.
#[derive(Clone, Copy, PartialEq, Eq, Structural, Debug)]
pub struct Scalar {
    pub bits: u32,
}

impl Scalar {
    /// Wraps a raw bit pattern.
    pub fn from_bits(bits: u32) -> (r: Scalar)
        ensures
            r.bits == bits,
    {
        Scalar { bits }
    }

    /// The value zero (`+0`).
    pub fn zero() -> (r: Scalar)
        ensures
            r.bits == 0,
            bits_are_zero(r.bits),
    {
        proof {
            assert(0u32 & 0x7fff_ffffu32 == 0) by (bit_vector);
        }
        Scalar { bits: 0 }
    }

    /// The "unset" sentinel: a quiet NaN, which is not finite.
    pub fn unset() -> (r: Scalar)
        ensures
            r.bits == UNSET_BITS,
            !bits_are_finite(r.bits),
    {
        proof {
            assert(0x7fc0_0000u32 & 0x7f80_0000u32 == 0x7f80_0000u32) by (bit_vector);
        }
        Scalar { bits: UNSET_BITS }
    }

    /// Whether the value compares equal to zero.
    pub fn is_zero(&self) -> (r: bool)
        ensures
            r == bits_are_zero(self.bits),
    {
        self.bits & MAGNITUDE_MASK == 0
    }

    /// Whether the value is finite (neither an infinity nor a NaN).
    pub fn is_finite(&self) -> (r: bool)
        ensures
            r == bits_are_finite(self.bits),
    {
        self.bits & EXPONENT_MASK != EXPONENT_MASK
    }
}

/// A pair of engine units: a size along each window axis.
#[derive(Clone, Copy, PartialEq, Eq, Structural, Debug)]
pub struct Size2 {
    pub x: Scalar,
    pub y: Scalar,
}

impl Size2 {
    /// Builds a size from the two axes.
    pub fn new(x: Scalar, y: Scalar) -> (r: Size2)
        ensures
            r.x == x,
            r.y == y,
    {
        Size2 { x, y }
    }

    /// The zero size on both axes.
    pub fn zero() -> (r: Size2)
        ensures
            r.x.bits == 0,
            r.y.bits == 0,
            bits_are_zero(r.x.bits),
            bits_are_zero(r.y.bits),
    {
        Size2 { x: Scalar::zero(), y: Scalar::zero() }
    }
}

} // verus!
