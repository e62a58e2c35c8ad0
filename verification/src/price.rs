//! Non-NaN single-precision prices, held as their IEEE-754 bit patterns.
//!
//! The numeric order of non-NaN `f32` values is the order of their
//! sign-magnitude reading: the 31 low bits give the magnitude (finite values
//! and infinity alike grow with it) and the top bit the sign, with `+0.0` and
//! `-0.0` reading as the same key.  A bit pattern is NaN exactly when its
//! magnitude lies above that of infinity.

use vstd::prelude::*;

verus! {

/// The sign bit of an `f32` bit pattern.
pub const SIGN_BIT: u32 = 0x8000_0000;

/// The bit pattern of positive infinity; larger magnitudes are NaN.
pub const INFINITY_BITS: u32 = 0x7f80_0000;

/// The bit pattern of `0.0f32`.
pub const ZERO_BITS: u32 = 0x0000_0000;

/// The bit pattern of `100.0f32`.
pub const HUNDRED_BITS: u32 = 0x42c8_0000;

/// The magnitude (absolute-value bits) of a bit pattern.
pub open spec fn magnitude(bits: u32) -> int {
    if bits >= SIGN_BIT {
        bits - SIGN_BIT
    } else {
        bits as int
    }
}

/// Whether a bit pattern is a NaN.
pub open spec fn is_nan_bits(bits: u32) -> bool {
    magnitude(bits) > INFINITY_BITS
}

/// The integer whose order is the numeric order of the non-NaN value `bits`.
pub open spec fn order_key(bits: u32) -> int {
    if bits >= SIGN_BIT {
        -magnitude(bits)
    } else {
        magnitude(bits)
    }
}

/// A bit pattern is NaN exactly as IEEE-754 defines it: all exponent bits
/// set and a nonzero fraction.  Every other pattern (zeros, subnormals,
/// normal numbers such as 1.0, and the infinities) is a number.
pub proof fn lemma_nan_is_ieee_nan(bits: u32)
    ensures
        is_nan_bits(bits) <==> ((bits & 0x7f80_0000u32) == 0x7f80_0000u32 && (bits & 0x007f_ffffu32)
            != 0u32),
{
    assert(((bits >= 0x8000_0000u32 ==> bits - 0x8000_0000u32 > 0x7f80_0000u32) && (bits
        < 0x8000_0000u32 ==> bits > 0x7f80_0000u32)) <==> ((bits & 0x7f80_0000u32) == 0x7f80_0000u32
        && (bits & 0x007f_ffffu32) != 0u32)) by (bit_vector);
}

/// Computes `order_key(bits)`.
pub fn key_of_bits(bits: u32) -> (k: i64)
    ensures
        k == order_key(bits),
{
    if bits >= SIGN_BIT {
        -((bits - SIGN_BIT) as i64)
    } else {
        bits as i64
    }
}

/// Decides whether a bit pattern is a NaN.
pub fn bits_are_nan(bits: u32) -> (r: bool)
    ensures
        r == is_nan_bits(bits),
{
    let mag = if bits >= SIGN_BIT {
        bits - SIGN_BIT
    } else {
        bits
    };
    mag > INFINITY_BITS
}

/// A price that is not NaN, held as the bit pattern of its `f32` value.
#[derive(Clone, Copy, Debug)]
pub struct Price {
    bits: u32,
}

impl Price {
    #[verifier::type_invariant]
    spec fn not_nan(self) -> bool {
        !is_nan_bits(self.bits)
    }

    /// The bit pattern of this price.
    pub closed spec fn spec_bits(self) -> u32 {
        self.bits
    }

    /// The order key of this price: prices compare as their keys do.
    pub open spec fn key(self) -> int {
        order_key(self.spec_bits())
    }

    /// Wraps a bit pattern, refusing NaN.
    pub fn new(bits: u32) -> (r: Option<Price>)
        ensures
            r is Some <==> !is_nan_bits(bits),
            r matches Some(p) ==> p.spec_bits() == bits,
    {
        if bits_are_nan(bits) {
            None
        } else {
            Some(Price { bits })
        }
    }

    /// The price `0.0`.
    pub fn zero() -> (p: Price)
        ensures
            p.spec_bits() == ZERO_BITS,
            p.key() == 0,
    {
        Price { bits: ZERO_BITS }
    }

    /// The bit pattern of this price, which is never a NaN.
    pub fn bits(&self) -> (b: u32)
        ensures
            b == self.spec_bits(),
            !is_nan_bits(b),
    {
        proof {
            use_type_invariant(self);
        }
        self.bits
    }

    /// The order key of this price.
    pub fn key_value(&self) -> (k: i64)
        ensures
            k == self.key(),
    {
        key_of_bits(self.bits)
    }

    /// Whether `self` is numerically below `other`.
    pub fn less_than(&self, other: &Price) -> (r: bool)
        ensures
            r == (self.key() < other.key()),
    {
        self.key_value() < other.key_value()
    }

    /// Whether `self` is numerically above `other`.
    pub fn greater_than(&self, other: &Price) -> (r: bool)
        ensures
            r == (self.key() > other.key()),
    {
        self.key_value() > other.key_value()
    }

    /// Whether `self` and `other` are numerically equal.
    pub fn same_value(&self, other: &Price) -> (r: bool)
        ensures
            r == (self.key() == other.key()),
    {
        self.key_value() == other.key_value()
    }
}

} // verus!
