use vstd::prelude::*;
use vstd::arithmetic::power2::{
    pow2,
    lemma_pow2_pos,
    lemma_pow2_unfold,
    lemma_pow2_strictly_increases,
};

verus! {

/// 2^52: one unit of the exponent field, and the implicit leading bit of a
/// normal significand.
pub const FRACTION_UNIT: u64 = 0x10_0000_0000_0000;

/// 2^63: the sign bit.
pub const SIGN_BIT: u64 = 0x8000_0000_0000_0000;

/// Exponent field of every infinity and NaN.
pub const EXPONENT_MAX: u64 = 0x7ff;

/// A double-precision number held as its IEEE 754 binary64 bit pattern.
#[derive(Debug, Clone, Copy, PartialEq, Eq, Structural)]
pub struct Binary64 {
    pub bits: u64,
}

/// All bits but the sign.
pub open spec fn magnitude_field(bits: u64) -> nat {
    (bits % SIGN_BIT) as nat
}

pub open spec fn exponent_field(bits: u64) -> nat {
    magnitude_field(bits) / (FRACTION_UNIT as nat)
}

pub open spec fn fraction_field(bits: u64) -> nat {
    magnitude_field(bits) % (FRACTION_UNIT as nat)
}

pub open spec fn sign_negative(bits: u64) -> bool {
    bits >= SIGN_BIT
}

pub open spec fn is_nan(bits: u64) -> bool {
    exponent_field(bits) == EXPONENT_MAX && fraction_field(bits) != 0
}

/// The absolute value of a magnitude field times 2^1074, which makes every
/// finite binary64 number an integer. The same formula puts infinity (the
/// largest exponent, no fraction) above every finite number.
pub open spec fn scaled_magnitude(m: nat) -> nat {
    let e = m / (FRACTION_UNIT as nat);
    let f = m % (FRACTION_UNIT as nat);
    if e == 0 {
        f
    } else {
        (FRACTION_UNIT as nat + f) * pow2((e - 1) as nat)
    }
}

/// The value of a binary64 pattern times 2^1074 (meaningful when not NaN;
/// the two zeros both give 0).
pub open spec fn scaled_value(bits: u64) -> int {
    let m = scaled_magnitude(magnitude_field(bits)) as int;
    if sign_negative(bits) {
        -m
    } else {
        m
    }
}

/// `a < b` as IEEE 754 compares: false when either side is NaN.
pub open spec fn less_than(a: u64, b: u64) -> bool {
    !is_nan(a) && !is_nan(b) && scaled_value(a) < scaled_value(b)
}

/// `a <= b` as IEEE 754 compares: false when either side is NaN.
pub open spec fn at_most(a: u64, b: u64) -> bool {
    !is_nan(a) && !is_nan(b) && scaled_value(a) <= scaled_value(b)
}

proof fn lemma_scaled_below_next_exponent(m: nat)
    ensures
        scaled_magnitude(m) < (FRACTION_UNIT as nat) * pow2(m / (FRACTION_UNIT as nat)),
{
    let u = FRACTION_UNIT as nat;
    let e = m / u;
    let f = m % u;
    lemma_pow2_pos(e);
    if e == 0 {
        assert(pow2(0) == 1) by {
            vstd::arithmetic::power2::lemma2_to64();
        }
    } else {
        let p = pow2((e - 1) as nat);
        lemma_pow2_unfold(e);
        lemma_pow2_pos((e - 1) as nat);
        assert((u + f) * p < 2 * u * p) by (nonlinear_arith)
            requires
                f < u,
                p > 0,
        ;
        assert(2 * u * p == u * (2 * p)) by (nonlinear_arith);
    }
}

proof fn lemma_scaled_at_least_exponent(m: nat)
    requires
        m / (FRACTION_UNIT as nat) > 0,
    ensures
        scaled_magnitude(m) >= (FRACTION_UNIT as nat) * pow2((m / (FRACTION_UNIT as nat) - 1) as nat),
{
    let u = FRACTION_UNIT as nat;
    let e = m / u;
    let f = m % u;
    let p = pow2((e - 1) as nat);
    assert((u + f) * p >= u * p) by (nonlinear_arith);
}

/// The scaled magnitude grows strictly with the magnitude field: the bit order
/// of non-negative patterns is their numeric order.
pub proof fn lemma_scaled_magnitude_increases(m1: nat, m2: nat)
    requires
        m1 < m2,
    ensures
        scaled_magnitude(m1) < scaled_magnitude(m2),
{
    let u = FRACTION_UNIT as nat;
    let e1 = m1 / u;
    let e2 = m2 / u;
    let f1 = m1 % u;
    let f2 = m2 % u;
    assert(m1 == u * e1 + f1) by (nonlinear_arith)
        requires
            e1 == m1 / u,
            f1 == m1 % u,
            u > 0,
    ;
    assert(m2 == u * e2 + f2) by (nonlinear_arith)
        requires
            e2 == m2 / u,
            f2 == m2 % u,
            u > 0,
    ;
    assert(e1 <= e2) by (nonlinear_arith)
        requires
            m1 == u * e1 + f1,
            m2 == u * e2 + f2,
            f1 < u,
            f2 < u,
            m1 < m2,
    ;
    if e1 == e2 {
        assert(f1 < f2);
        if e1 > 0 {
            let p = pow2((e1 - 1) as nat);
            lemma_pow2_pos((e1 - 1) as nat);
            assert((u + f1) * p < (u + f2) * p) by (nonlinear_arith)
                requires
                    f1 < f2,
                    p > 0,
            ;
        }
    } else {
        lemma_scaled_below_next_exponent(m1);
        lemma_scaled_at_least_exponent(m2);
        if e1 < (e2 - 1) as nat {
            lemma_pow2_strictly_increases(e1, (e2 - 1) as nat);
        }
        assert(pow2(e1) <= pow2((e2 - 1) as nat));
        assert(u * pow2(e1) <= u * pow2((e2 - 1) as nat)) by (nonlinear_arith)
            requires
                pow2(e1) <= pow2((e2 - 1) as nat),
        ;
    }
}

impl Binary64 {
    pub fn from_bits(bits: u64) -> (r: Binary64)
        ensures
            r.bits == bits,
    {
        Binary64 { bits }
    }

    pub fn to_bits(&self) -> (r: u64)
        ensures
            r == self.bits,
    {
        self.bits
    }

    pub fn is_nan(&self) -> (r: bool)
        ensures
            r == is_nan(self.bits),
    {
        let m = self.bits % SIGN_BIT;
        m / FRACTION_UNIT == EXPONENT_MAX && m % FRACTION_UNIT != 0
    }

    /// `self < other` as IEEE 754 compares.
    pub fn lt(&self, other: &Binary64) -> (r: bool)
        ensures
            r == less_than(self.bits, other.bits),
    {
        if self.is_nan() || other.is_nan() {
            return false;
        }
        let ma = self.bits % SIGN_BIT;
        let mb = other.bits % SIGN_BIT;
        let na = self.bits >= SIGN_BIT;
        let nb = other.bits >= SIGN_BIT;
        proof {
            if ma < mb {
                lemma_scaled_magnitude_increases(ma as nat, mb as nat);
            }
            if mb < ma {
                lemma_scaled_magnitude_increases(mb as nat, ma as nat);
            }
            if 0 < ma {
                lemma_scaled_magnitude_increases(0, ma as nat);
            }
            if 0 < mb {
                lemma_scaled_magnitude_increases(0, mb as nat);
            }
            assert(scaled_magnitude(0) == 0);
        }
        if !na && !nb {
            ma < mb
        } else if na && nb {
            mb < ma
        } else if na {
            ma != 0 || mb != 0
        } else {
            false
        }
    }

    /// `self <= other` as IEEE 754 compares.
    pub fn le(&self, other: &Binary64) -> (r: bool)
        ensures
            r == at_most(self.bits, other.bits),
    {
        if self.is_nan() || other.is_nan() {
            return false;
        }
        !other.lt(self)
    }
}

} // verus!
