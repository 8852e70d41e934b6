//! IEEE 754 numbers, carried by their bit patterns.
//!
//! The engine stores scores, sums and weights as binary floating point. The client
//! passes them on unchanged and asks one question of them: whether a score is above
//! zero. Both need the bits only.

use vstd::prelude::*;

verus! {

/// A single-precision number, by its bit pattern (`f32::to_bits`).
#[derive(Debug, Clone, Copy, PartialEq, Eq, Structural)]
pub struct Float32 {
    pub bits: u32,
}

/// A double-precision number, by its bit pattern (`f64::to_bits`).
#[derive(Debug, Clone, Copy, PartialEq, Eq, Structural)]
pub struct Float64 {
    pub bits: u64,
}

/// The first bit pattern with the sign bit set.
pub const F32_SIGN_BIT: u32 = 0x8000_0000;

/// The bit pattern of positive infinity; every larger magnitude is not a number.
pub const F32_INFINITY: u32 = 0x7f80_0000;

impl Float32 {
    /// The sign bit is set.
    pub open spec fn sign(self) -> bool {
        self.bits >= F32_SIGN_BIT
    }

    /// Exponent and fraction: the pattern without its sign bit.
    pub open spec fn magnitude(self) -> int {
        if self.sign() {
            self.bits - F32_SIGN_BIT
        } else {
            self.bits as int
        }
    }

    /// The pattern stands for no number: its exponent is all ones and its fraction is not zero.
    pub open spec fn is_nan(self) -> bool {
        self.magnitude() > F32_INFINITY
    }

    /// The number is zero, of either sign.
    pub open spec fn is_zero(self) -> bool {
        self.magnitude() == 0
    }

    /// The comparison `x > 0.0`: false of zero, of what is negative, and of what is no number.
    pub open spec fn above_zero(self) -> bool {
        !self.is_nan() && !self.is_zero() && !self.sign()
    }

    /// The number `0.0`.
    pub fn zero() -> (r: Self)
        ensures
            r.bits == 0,
    {
        Float32 { bits: 0 }
    }

    /// The comparison `x > 0.0`.
    pub fn is_above_zero(self) -> (r: bool)
        ensures
            r == self.above_zero(),
    {
        0 < self.bits && self.bits <= F32_INFINITY
    }
}

/// Zero has the pattern without a bit, and a number is above zero exactly where its pattern lies
/// between that of zero, excluded, and that of positive infinity, included.
pub proof fn law_above_zero_by_pattern(x: Float32, r: bool, z: Float32)
    requires
        call_ensures(Float32::is_above_zero, (x,), r),
        call_ensures(Float32::zero, (), z),
    ensures
        z.bits == 0,
        r <==> 0 < x.bits <= 0x7f80_0000,
        x.above_zero() <==> 0 < x.bits <= 0x7f80_0000,
{
}

/// Of a number and its negative, which differ in the sign bit, exactly one is above zero, unless
/// the number is zero or none; then neither is.
pub proof fn law_one_of_number_and_negative_is_above_zero(
    x: Float32,
    negative: Float32,
    a: bool,
    b: bool,
)
    requires
        x.bits < 0x8000_0000,
        negative.bits == x.bits + 0x8000_0000,
        call_ensures(Float32::is_above_zero, (x,), a),
        call_ensures(Float32::is_above_zero, (negative,), b),
    ensures
        !b,
        a <==> x.bits != 0 && !x.is_nan(),
{
}

} // verus!
