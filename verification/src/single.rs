use vstd::arithmetic::power2::{
    lemma2_to64, lemma_pow2_adds, lemma_pow2_pos, lemma_pow2_strictly_increases,
    lemma_pow2_unfold, pow2,
};
use vstd::prelude::*;

verus! {

/// What a single-precision number stands for.
pub enum Value {
    /// The number `magnitude / 2^149`, with its sign. Every finite
    /// single-precision number is a whole multiple of `2^-149`.
    Finite { negative: bool, magnitude: nat },
    /// Positive or negative infinity.
    Infinite { negative: bool },
    /// Not a number.
    NaN,
}

impl Value {
    /// The number 1, counted in steps of `2^-149`.
    pub open spec fn one() -> nat {
        pow2(149)
    }

    /// This value times `2^149`, for a finite value.
    pub open spec fn scaled(self) -> int
        recommends
            self is Finite,
    {
        match self {
            Value::Finite { negative, magnitude } => if negative {
                -(magnitude as int)
            } else {
                magnitude as int
            },
            _ => 0,
        }
    }

    /// Whether this is a number from 0 to 100, both included. Negative zero
    /// is zero; an infinity or a NaN is no such number.
    pub open spec fn is_percentage(self) -> bool {
        self is Finite && 0 <= self.scaled() <= 100 * Self::one()
    }
}

/// A single-precision IEEE 754 number, held as its bit pattern: the sign in
/// the highest bit, below it eight bits of exponent and 23 bits of fraction.
///
/// Two of them are equal when their bits are, so a NaN equals itself and
/// the two zeros differ.
#[derive(Clone, Copy, PartialEq, Eq, Structural, Debug, Hash)]
pub struct Single {
    pub bits: u32,
}

impl View for Single {
    type V = Value;

    open spec fn view(&self) -> Value {
        if self.exponent() == 255 {
            if self.fraction() == 0 {
                Value::Infinite { negative: self.negative() }
            } else {
                Value::NaN
            }
        } else if self.exponent() == 0 {
            Value::Finite { negative: self.negative(), magnitude: self.fraction() }
        } else {
            Value::Finite {
                negative: self.negative(),
                magnitude: (0x80_0000 + self.fraction()) * pow2((self.exponent() - 1) as nat),
            }
        }
    }
}

impl Single {
    /// The bits of 100.
    pub const HUNDRED: u32 = 0x42C8_0000;

    /// The bits of negative zero.
    pub const NEGATIVE_ZERO: u32 = 0x8000_0000;

    /// The sign bit.
    pub open spec fn negative(self) -> bool {
        self.bits >= 0x8000_0000
    }

    /// The eight bits of exponent, as they are stored.
    pub open spec fn exponent(self) -> nat {
        ((self.bits / 0x80_0000) % 0x100) as nat
    }

    /// The 23 bits of fraction.
    pub open spec fn fraction(self) -> nat {
        (self.bits % 0x80_0000) as nat
    }

    /// The number with the given bits.
    pub fn from_bits(bits: u32) -> (x: Single)
        ensures
            x.bits == bits,
    {
        Single { bits }
    }

    /// The bits of this number.
    pub fn to_bits(self) -> (bits: u32)
        ensures
            bits == self.bits,
    {
        self.bits
    }

    /// Whether this is a number from 0 to 100, both included.
    pub fn is_percentage(self) -> (b: bool)
        ensures
            b == self@.is_percentage(),
    {
        proof {
            lemma_percentage_bits(self);
        }
        self.bits <= Self::HUNDRED || self.bits == Self::NEGATIVE_ZERO
    }
}

/// 100, counted in steps of `2^-149`, is the magnitude of the bits of 100.
proof fn lemma_hundred()
    ensures
        100 * Value::one() == 0xC8_0000 * pow2(132),
{
    lemma2_to64();
    lemma_pow2_adds(17, 132);
    assert(100 * (0x2_0000 * pow2(132)) == 0xC8_0000 * pow2(132)) by (nonlinear_arith);
}

/// A magnitude with a stored exponent from 1 to 132 is below 100.
proof fn lemma_small_exponent(e: nat, f: nat)
    requires
        1 <= e <= 132,
        f < 0x80_0000,
    ensures
        (0x80_0000 + f) * pow2((e - 1) as nat) <= 0xC8_0000 * pow2(132),
{
    let p = pow2((e - 1) as nat);
    let q = pow2(132);
    lemma_pow2_pos((e - 1) as nat);
    lemma_pow2_unfold(132);
    if e < 132 {
        lemma_pow2_strictly_increases((e - 1) as nat, 131);
    }
    assert((0x80_0000 + f) * p <= 0xC8_0000 * q) by (nonlinear_arith)
        requires
            f < 0x80_0000,
            0 < p,
            2 * p <= q,
    ;
}

/// A magnitude with a stored exponent from 134 on is above 100.
proof fn lemma_large_exponent(e: nat, f: nat)
    requires
        134 <= e,
    ensures
        (0x80_0000 + f) * pow2((e - 1) as nat) > 0xC8_0000 * pow2(132),
{
    let p = pow2((e - 1) as nat);
    let q = pow2(132);
    lemma_pow2_pos(132);
    lemma_pow2_unfold(133);
    if e > 134 {
        lemma_pow2_strictly_increases(133, (e - 1) as nat);
    }
    assert((0x80_0000 + f) * p > 0xC8_0000 * q) by (nonlinear_arith)
        requires
            0 <= f,
            0 < q,
            2 * q <= p,
    ;
}

/// The numbers from 0 to 100 are those whose bits are at most the bits of
/// 100, and negative zero: below the sign bit, a larger number has larger
/// bits.
pub proof fn lemma_percentage_bits(x: Single)
    ensures
        x@.is_percentage() <==> (x.bits <= Single::HUNDRED || x.bits == Single::NEGATIVE_ZERO),
{
    let e = x.exponent();
    let f = x.fraction();
    let q = pow2(132);
    lemma_hundred();
    lemma_pow2_pos(132);
    if e == 255 {
    } else if e == 0 {
        assert(f < 0xC8_0000 * q) by (nonlinear_arith)
            requires
                f < 0x80_0000,
                0 < q,
        ;
    } else {
        let p = pow2((e - 1) as nat);
        let m = (0x80_0000 + f) * p;
        lemma_pow2_pos((e - 1) as nat);
        assert(m > 0) by (nonlinear_arith)
            requires
                m == (0x80_0000 + f) * p,
                p > 0,
                f >= 0,
        ;
        if e <= 132 {
            lemma_small_exponent(e, f);
        } else if e == 133 {
            assert(m <= 0xC8_0000 * q <==> f <= 0x48_0000) by (nonlinear_arith)
                requires
                    m == (0x80_0000 + f) * q,
                    q > 0,
            ;
        } else {
            lemma_large_exponent(e, f);
        }
    }
}

} // verus!
