//! Single-precision numbers carried as bit patterns.
//!
//! Positions, sizes and paint order are IEEE 754 single-precision values. The
//! verified code never performs arithmetic on them; it only stores them,
//! copies them and orders them. All three can be done on the 32 bits of the
//! encoding, so that is what a [`Scalar`] holds.

use vstd::prelude::*;

verus! {

/// Bit pattern of the sign bit of a single-precision number.
pub const SIGN_BIT: u32 = 0x8000_0000;

/// Magnitude bits of positive infinity; larger magnitudes encode NaN.
pub const INFINITY_MAGNITUDE: u32 = 0x7f80_0000;

/// A single-precision number, held as the bits of its IEEE 754 encoding.
#[derive(Clone, Copy, Debug, PartialEq, Eq, Structural)]
pub struct Scalar {
    pub bits: u32,
}

impl Scalar {
    /// The encoding without its sign bit.
    pub open spec fn magnitude(self) -> int {
        if self.bits >= SIGN_BIT {
            self.bits - SIGN_BIT
        } else {
            self.bits as int
        }
    }

    /// Whether the sign bit is set.
    pub open spec fn is_negative(self) -> bool {
        self.bits >= SIGN_BIT
    }

    /// Whether the bits encode a NaN.
    pub open spec fn is_nan(self) -> bool {
        self.magnitude() > INFINITY_MAGNITUDE
    }

    /// An integer that orders scalars as their numeric values are ordered.
    ///
    /// For two scalars that are not NaN, `a.order_key() < b.order_key()`
    /// holds exactly when `a` is numerically less than `b`; the two zeros
    /// share the key 0. A NaN lies beyond the infinity of its sign.
    pub open spec fn order_key(self) -> int {
        if self.is_negative() {
            -self.magnitude()
        } else {
            self.magnitude()
        }
    }

    /// Wraps the bits of an encoded number.
    pub fn from_bits(bits: u32) -> (s: Scalar)
        ensures
            s.bits == bits,
    {
        Scalar { bits }
    }

    /// The bits of the encoding.
    pub fn to_bits(&self) -> (bits: u32)
        ensures
            bits == self.bits,
    {
        self.bits
    }

    /// Whether the bits encode a NaN.
    pub fn nan(&self) -> (r: bool)
        ensures
            r == self.is_nan(),
    {
        if self.bits >= SIGN_BIT {
            self.bits - SIGN_BIT > INFINITY_MAGNITUDE
        } else {
            self.bits > INFINITY_MAGNITUDE
        }
    }

    /// Computes [`Scalar::order_key`].
    pub fn sort_key(&self) -> (k: i64)
        ensures
            k == self.order_key(),
    {
        if self.bits >= SIGN_BIT {
            let m: u32 = self.bits - SIGN_BIT;
            -(m as i64)
        } else {
            self.bits as i64
        }
    }

    /// Whether `self` comes strictly before `other` in paint order.
    pub fn precedes(&self, other: &Scalar) -> (r: bool)
        ensures
            r == (self.order_key() < other.order_key()),
    {
        self.sort_key() < other.sort_key()
    }
}

} // verus!
