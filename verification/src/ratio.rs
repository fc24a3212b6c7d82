//! Limits on padding overhead, compared exactly.
use vstd::prelude::*;

verus! {

/// A ratio as the bit pattern of a single-precision number.
#[derive(Debug, Clone, Copy, PartialEq, Eq, Structural)]
pub struct PaddingRatio {
    bits: u32,
}

/// The value `upper * 2^64 + lower`.
spec fn limbs(upper: u128, lower: u128) -> int {
    upper * 0x1_0000_0000_0000_0000 + lower
}

impl PaddingRatio {
    /// The bit pattern.
    pub closed spec fn spec_bits(self) -> u32 {
        self.bits
    }

    /// The exponent field of the bit pattern.
    pub open spec fn exponent_field(self) -> int {
        (self.spec_bits() as int / 0x80_0000) % 0x100
    }

    /// Whether the sign bit is set.
    pub open spec fn is_negative(self) -> bool {
        self.spec_bits() >= 0x8000_0000u32
    }

    /// The integer that the power of two scales.
    pub open spec fn significand(self) -> int {
        let fraction = self.spec_bits() as int % 0x80_0000;
        if self.exponent_field() == 0 {
            fraction
        } else {
            fraction + 0x80_0000
        }
    }

    /// The exponent of the power of two that scales the significand.
    pub open spec fn scale(self) -> int {
        if self.exponent_field() == 0 {
            -149
        } else {
            self.exponent_field() - 150
        }
    }

    /// Whether the pattern stands for a finite number that is not below zero.
    pub open spec fn is_limit(self) -> bool {
        self.exponent_field() != 255 && (!self.is_negative() || self.significand() == 0)
    }

    /// Whether `waste` is more than this ratio of `requested`.
    pub open spec fn exceeded_by(self, waste: int, requested: int) -> bool {
        if self.scale() >= 0 {
            waste > requested * self.significand() * vstd::arithmetic::power2::pow2(self.scale() as nat)
        } else {
            waste * vstd::arithmetic::power2::pow2((-self.scale()) as nat) > requested * self.significand()
        }
    }

    /// The ratio with the given bit pattern.
    pub fn from_bits(bits: u32) -> (ratio: PaddingRatio)
        ensures
            ratio.spec_bits() == bits,
    {
        PaddingRatio { bits }
    }

    /// The bit pattern.
    pub fn to_bits(&self) -> (bits: u32)
        ensures
            bits == self.spec_bits(),
    {
        self.bits
    }

    /// Whether the pattern stands for a finite number that is not below zero.
    pub fn is_valid(&self) -> (valid: bool)
        ensures
            valid == self.is_limit(),
    {
        let field: u32 = (self.bits / 0x80_0000) % 0x100;
        let fraction: u32 = self.bits % 0x80_0000;
        if field == 255 {
            false
        } else if self.bits < 0x8000_0000 {
            true
        } else {
            field == 0 && fraction == 0
        }
    }

    /// Whether `waste` is more than this ratio of `requested`.
    pub fn exceeds(&self, waste: u128, requested: u128) -> (exceeds: bool)
        ensures
            exceeds == self.exceeded_by(waste as int, requested as int),
    {
        let field: u32 = (self.bits / 0x80_0000) % 0x100;
        let fraction: u32 = self.bits % 0x80_0000;
        let significand: u32 = if field == 0 {
            fraction
        } else {
            fraction + 0x80_0000
        };
        let high: u128 = requested / 0x1_0000_0000_0000_0000;
        let low: u128 = requested % 0x1_0000_0000_0000_0000;
        let ghost m = significand as int;
        let ghost x = requested * m;
        assert(high * significand <= 0xffff_ffff_ffff_ffff * 0xff_ffff) by (nonlinear_arith)
            requires
                high <= 0xffff_ffff_ffff_ffff,
                significand <= 0xff_ffff,
        ;
        assert(low * significand <= 0xffff_ffff_ffff_ffff * 0xff_ffff) by (nonlinear_arith)
            requires
                low <= 0xffff_ffff_ffff_ffff,
                significand <= 0xff_ffff,
        ;
        let high_product: u128 = high * (significand as u128);
        let low_product: u128 = low * (significand as u128);
        let upper: u128 = high_product + low_product / 0x1_0000_0000_0000_0000;
        let lower: u128 = low_product % 0x1_0000_0000_0000_0000;
        assert(limbs(upper, lower) == x) by {
            assert(requested == high * 0x1_0000_0000_0000_0000 + low);
            assert((high * 0x1_0000_0000_0000_0000 + low) * m == (high * m)
                * 0x1_0000_0000_0000_0000 + low * m) by (nonlinear_arith);
        }
        if field >= 150 {
            scaled_up_exceeded(waste, upper, lower, field - 150, Ghost(x))
        } else {
            let shift: u32 = if field == 0 {
                149
            } else {
                150 - field
            };
            scaled_down_exceeded(waste, upper, lower, shift, Ghost(x))
        }
    }
}

/// Whether `waste` is more than `x * 2^shift`, where `x` is given in two limbs.
fn scaled_up_exceeded(waste: u128, upper: u128, lower: u128, shift: u32, x: Ghost<int>) -> (exceeds:
    bool)
    requires
        limbs(upper, lower) == x@,
        upper < 0x1_0000_0000_0000_0000_0000_0000,
        lower < 0x1_0000_0000_0000_0000,
        shift <= 105,
    ensures
        exceeds == (waste > x@ * vstd::arithmetic::power2::pow2(shift as nat)),
{
    let mut a: u128 = upper;
    let mut b: u128 = lower;
    let mut k: u32 = 0;
    proof {
        vstd::arithmetic::power2::lemma2_to64();
        assert(x@ * 1 == x@);
    }
    while k < shift && a < 0x1_0000_0000_0000_0000
        invariant
            k <= shift,
            a < 0x1_0000_0000_0000_0000_0000_0000,
            b < 0x1_0000_0000_0000_0000,
            limbs(a, b) == x@ * vstd::arithmetic::power2::pow2(k as nat),
        decreases shift - k,
    {
        let ghost before = limbs(a, b);
        let carry: u128 = b / 0x8000_0000_0000_0000;
        a = a * 2 + carry;
        b = (b % 0x8000_0000_0000_0000) * 2;
        proof {
            assert(limbs(a, b) == before * 2);
            vstd::arithmetic::power2::lemma_pow2_unfold((k + 1) as nat);
            let p = vstd::arithmetic::power2::pow2(k as nat) as int;
            assert(x@ * (2 * p) == (x@ * p) * 2) by (nonlinear_arith);
        }
        k = k + 1;
    }
    if a >= 0x1_0000_0000_0000_0000 {
        proof {
            let p = vstd::arithmetic::power2::pow2(k as nat) as int;
            vstd::arithmetic::power2::lemma_pow2_pos(k as nat);
            if k < shift {
                vstd::arithmetic::power2::lemma_pow2_strictly_increases(k as nat, shift as nat);
            }
            let q = vstd::arithmetic::power2::pow2(shift as nat) as int;
            assert(x@ * p <= x@ * q) by (nonlinear_arith)
                requires
                    x@ >= 0,
                    p <= q,
            ;
        }
        return false;
    }
    waste > a * 0x1_0000_0000_0000_0000 + b
}

/// Whether `waste * 2^shift` is more than `x`, where `x` is given in two limbs.
fn scaled_down_exceeded(
    waste: u128,
    upper: u128,
    lower: u128,
    shift: u32,
    x: Ghost<int>,
) -> (exceeds: bool)
    requires
        limbs(upper, lower) == x@,
        upper < 0x1_0000_0000_0000_0000_0000_0000,
        lower < 0x1_0000_0000_0000_0000,
        shift <= 149,
    ensures
        exceeds == (waste * vstd::arithmetic::power2::pow2(shift as nat) > x@),
{
    let mut a: u128 = upper;
    let mut b: u128 = lower;
    let mut k: u32 = 0;
    proof {
        vstd::arithmetic::power2::lemma2_to64();
    }
    while k < shift
        invariant
            k <= shift,
            x@ >= 0,
            a < 0x1_0000_0000_0000_0000_0000_0000,
            b < 0x1_0000_0000_0000_0000,
            limbs(a, b) == x@ / (vstd::arithmetic::power2::pow2(k as nat) as int),
        decreases shift - k,
    {
        let ghost before = limbs(a, b);
        b = b / 2 + (a % 2) * 0x8000_0000_0000_0000;
        a = a / 2;
        proof {
            assert(limbs(a, b) == before / 2);
            vstd::arithmetic::power2::lemma_pow2_pos(k as nat);
            vstd::arithmetic::power2::lemma_pow2_unfold((k + 1) as nat);
            vstd::arithmetic::div_mod::lemma_div_denominator(x@, vstd::arithmetic::power2::pow2(k as nat) as int, 2);
            assert(vstd::arithmetic::power2::pow2(k as nat) * 2 == vstd::arithmetic::power2::pow2((k + 1) as nat));
        }
        k = k + 1;
    }
    proof {
        let p = vstd::arithmetic::power2::pow2(shift as nat) as int;
        vstd::arithmetic::power2::lemma_pow2_pos(shift as nat);
        let q = x@ / p;
        let w = waste as int;
        assert(q * p <= x@ < (q + 1) * p) by {
            vstd::arithmetic::div_mod::lemma_fundamental_div_mod(x@, p);
            vstd::arithmetic::div_mod::lemma_mod_bound(x@, p);
            assert(p * q == q * p) by (nonlinear_arith);
            assert((q + 1) * p == q * p + p) by (nonlinear_arith);
        }
        assert((w * p > x@) <==> (w > q)) by (nonlinear_arith)
            requires
                p > 0,
                q * p <= x@ < (q + 1) * p,
        ;
    }
    if a >= 0x1_0000_0000_0000_0000 {
        return false;
    }
    waste > a * 0x1_0000_0000_0000_0000 + b
}

/// A larger overhead exceeds every limit that a smaller one exceeds.
pub proof fn exceeding_is_monotone(limit: PaddingRatio, small: int, large: int, requested: int)
    requires
        small <= large,
        limit.exceeded_by(small, requested),
    ensures
        limit.exceeded_by(large, requested),
{
    if limit.scale() < 0 {
        let p = vstd::arithmetic::power2::pow2((-limit.scale()) as nat) as int;
        vstd::arithmetic::power2::lemma_pow2_pos((-limit.scale()) as nat);
        assert(small * p <= large * p) by (nonlinear_arith)
            requires
                small <= large,
                p > 0,
        ;
    }
}

} // verus!
