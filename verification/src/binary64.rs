//! IEEE 754 binary64 encodings and the numbers they stand for.
//!
//! An encoding is a `u64`: one sign bit, eleven bits of biased exponent and
//! fifty-two bits of fraction, from the most significant bit down.

use vstd::arithmetic::power2::{lemma_pow2_pos, pow2};
use vstd::prelude::*;

verus! {

/// The encoding whose only set bit is the sign bit (negative zero).
pub const SIGN_BIT: u64 = 0x8000_0000_0000_0000;

/// The encoding of positive infinity: every exponent bit set, no other.
pub const POSITIVE_INFINITY: u64 = 0x7ff0_0000_0000_0000;

/// The encoding of positive zero.
pub const POSITIVE_ZERO: u64 = 0;

/// What an encoding stands for.
pub enum Value {
    /// Not a number.
    Nan,
    /// An infinity of the given sign.
    Infinite { negative: bool },
    /// The number `significand * 2^exponent`, negated where `negative` holds.
    Finite { negative: bool, significand: nat, exponent: int },
}

/// Whether the sign bit of `bits` is set.
pub open spec fn sign_negative(bits: u64) -> bool {
    bits / 0x8000_0000_0000_0000 == 1
}

/// The eleven exponent bits of `bits`, as a number.
pub open spec fn biased_exponent(bits: u64) -> nat {
    (bits / 0x10_0000_0000_0000 % 0x800) as nat
}

/// The fifty-two fraction bits of `bits`, as a number.
pub open spec fn fraction(bits: u64) -> nat {
    (bits % 0x10_0000_0000_0000) as nat
}

/// The value that `bits` encodes.
pub open spec fn decode(bits: u64) -> Value {
    let negative = sign_negative(bits);
    let e = biased_exponent(bits);
    let f = fraction(bits);
    if e == 0x7ff {
        if f == 0 {
            Value::Infinite { negative }
        } else {
            Value::Nan
        }
    } else if e == 0 {
        Value::Finite { negative, significand: f, exponent: -1074 }
    } else {
        Value::Finite { negative, significand: f + 0x10_0000_0000_0000, exponent: e - 1075 }
    }
}

impl Value {
    /// For a finite value with an exponent of at least -1074, the value
    /// times `2^1074`, which is an integer. Zero for the others.
    pub open spec fn scaled(self) -> int {
        match self {
            Value::Finite { negative, significand, exponent } => {
                let magnitude = (significand * pow2((exponent + 1074) as nat)) as int;
                if negative {
                    -magnitude
                } else {
                    magnitude
                }
            },
            _ => 0,
        }
    }

    /// `self <= 0` as IEEE 754 compares: false for a NaN.
    pub open spec fn le_zero(self) -> bool {
        match self {
            Value::Nan => false,
            Value::Infinite { negative } => negative,
            Value::Finite { .. } => self.scaled() <= 0,
        }
    }

    /// `self > 0` as IEEE 754 compares: false for a NaN.
    pub open spec fn gt_zero(self) -> bool {
        match self {
            Value::Nan => false,
            Value::Infinite { negative } => !negative,
            Value::Finite { .. } => self.scaled() > 0,
        }
    }
}

/// How an encoding compares with zero, read off its bits: it is at most
/// zero when it is no NaN and its sign bit is set or it is positive zero,
/// and above zero when it is no NaN, its sign bit is clear and some other
/// bit is set.
pub proof fn lemma_compare_zero_by_bits(bits: u64)
    ensures
        decode(bits).le_zero() <==> decode(bits) !is Nan && (sign_negative(bits) || bits
            == POSITIVE_ZERO),
        decode(bits).gt_zero() <==> decode(bits) !is Nan && !sign_negative(bits) && bits
            != POSITIVE_ZERO,
{
    if decode(bits) is Finite {
        let s = decode(bits)->significand;
        let p = pow2((decode(bits)->exponent + 1074) as nat);
        lemma_pow2_pos((decode(bits)->exponent + 1074) as nat);
        assert(s * p <= 0 <==> s == 0) by (nonlinear_arith)
            requires
                p > 0,
                s >= 0,
        ;
    }
}

/// An encoding stands for a NaN, for a number at most zero or for a number
/// above zero, and for one of the three only.
pub proof fn lemma_sign_trichotomy(bits: u64)
    ensures
        decode(bits) is Nan || decode(bits).le_zero() || decode(bits).gt_zero(),
        !(decode(bits).le_zero() && decode(bits).gt_zero()),
        decode(bits) is Nan ==> !decode(bits).le_zero() && !decode(bits).gt_zero(),
{
}

/// Positive zero stands for the number zero.
pub proof fn lemma_positive_zero()
    ensures
        decode(POSITIVE_ZERO) == (Value::Finite { negative: false, significand: 0, exponent: -1074 }),
        decode(POSITIVE_ZERO).scaled() == 0,
        decode(POSITIVE_ZERO).le_zero(),
{
    assert(0 * pow2(0) == 0) by (nonlinear_arith);
}

/// Whether the number that `bits` encodes is at most zero. A NaN is not.
pub fn is_le_zero(bits: u64) -> (r: bool)
    ensures
        r == decode(bits).le_zero(),
{
    let negative: bool = bits >= SIGN_BIT;
    let magnitude: u64 = if negative {
        bits - SIGN_BIT
    } else {
        bits
    };
    proof {
        lemma_compare_zero_by_bits(bits);
    }
    magnitude <= POSITIVE_INFINITY && (negative || magnitude == 0)
}

} // verus!
