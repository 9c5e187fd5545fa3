//! Amounts of water and coffee beans.
//!
//! An amount is an IEEE 754 double-precision number, held by its bit
//! pattern. What a pattern stands for is given by [`Value`]; the order of
//! two amounts is decided on their patterns and proved to be the order of
//! the numbers they stand for.

use vstd::prelude::*;
use vstd::arithmetic::power2::{
    lemma_pow2_pos,
    lemma_pow2_strictly_increases,
    lemma_pow2_unfold,
    pow2,
};

verus! {

/// The bit that carries the sign.
pub const SIGN_BIT: u64 = 0x8000_0000_0000_0000;

/// The magnitude of an infinity. Every larger magnitude is a NaN.
pub const INFINITY_MAGNITUDE: u64 = 0x7FF0_0000_0000_0000;

/// The number of fraction patterns under one exponent, `2^52`.
pub const FRACTION_SPAN: u64 = 0x0010_0000_0000_0000;

/// What a bit pattern stands for.
pub enum Value {
    /// Not a number.
    Nan,
    /// Below every number.
    NegInfinity,
    /// The number `units / 2^1074`.
    Finite { units: int },
    /// Above every number.
    PosInfinity,
}

impl Value {
    /// `self < other`. Nothing is below a NaN, and a NaN is below nothing.
    pub open spec fn lt(self, other: Value) -> bool {
        match (self, other) {
            (Value::Nan, _) | (_, Value::Nan) => false,
            (_, Value::NegInfinity) => false,
            (Value::NegInfinity, _) => true,
            (Value::PosInfinity, _) => false,
            (_, Value::PosInfinity) => true,
            (Value::Finite { units: a }, Value::Finite { units: b }) => a < b,
        }
    }

    /// `self >= other`. It fails whenever either side is a NaN.
    pub open spec fn ge(self, other: Value) -> bool {
        match (self, other) {
            (Value::Nan, _) | (_, Value::Nan) => false,
            (_, Value::NegInfinity) => true,
            (Value::NegInfinity, _) => false,
            (Value::PosInfinity, _) => true,
            (_, Value::PosInfinity) => false,
            (Value::Finite { units: a }, Value::Finite { units: b }) => a >= b,
        }
    }
}

/// The whole number `n`.
pub open spec fn whole(n: nat) -> Value {
    Value::Finite { units: (n * pow2(1074)) as int }
}

/// The pattern without its sign bit.
pub open spec fn magnitude(bits: u64) -> nat {
    if bits >= SIGN_BIT {
        (bits - SIGN_BIT) as nat
    } else {
        bits as nat
    }
}

/// The number that a finite magnitude stands for, in units of `2^-1074`:
/// the fraction alone under exponent 0, and the fraction with the hidden
/// bit, doubled once for every further exponent, above it.
pub open spec fn units(magnitude: nat) -> nat {
    let exponent = magnitude / (FRACTION_SPAN as nat);
    let fraction = magnitude % (FRACTION_SPAN as nat);
    if exponent == 0 {
        fraction
    } else {
        ((FRACTION_SPAN + fraction) * pow2((exponent - 1) as nat)) as nat
    }
}

/// The order of two amounts, read off their bit patterns.
pub open spec fn lt_by_bits(a: u64, b: u64) -> bool {
    let ma = magnitude(a);
    let mb = magnitude(b);
    if ma > INFINITY_MAGNITUDE || mb > INFINITY_MAGNITUDE {
        false
    } else if a >= SIGN_BIT && b >= SIGN_BIT {
        mb < ma
    } else if a >= SIGN_BIT {
        ma != 0 || mb != 0
    } else if b >= SIGN_BIT {
        false
    } else {
        ma < mb
    }
}

/// An amount of something, as a double-precision number.
#[derive(Clone, Copy, Debug)]
pub struct Quantity {
    /// The number's bit pattern.
    pub bits: u64,
}

impl View for Quantity {
    type V = Value;

    open spec fn view(&self) -> Value {
        let m = magnitude(self.bits);
        if m > INFINITY_MAGNITUDE {
            Value::Nan
        } else if m == INFINITY_MAGNITUDE {
            if self.bits >= SIGN_BIT {
                Value::NegInfinity
            } else {
                Value::PosInfinity
            }
        } else if self.bits >= SIGN_BIT {
            Value::Finite { units: -(units(m) as int) }
        } else {
            Value::Finite { units: units(m) as int }
        }
    }
}

/// A larger magnitude stands for a larger number.
pub proof fn lemma_units_strictly_increasing(a: nat, b: nat)
    requires
        a < b,
    ensures
        units(a) < units(b),
{
    let span = FRACTION_SPAN as nat;
    let ea = a / span;
    let fa = a % span;
    let eb = b / span;
    let fb = b % span;
    assert(ea <= eb);
    assert(ea == eb ==> fa < fb);
    if eb != 0 {
        let pb = pow2((eb - 1) as nat);
        lemma_pow2_pos((eb - 1) as nat);
        assert(span * pb <= (span + fb) * pb) by (nonlinear_arith)
            requires
                pb > 0,
        ;
        if ea == 0 {
            assert(span <= span * pb) by (nonlinear_arith)
                requires
                    pb > 0,
            ;
        } else if ea == eb {
            assert((span + fa) * pb < (span + fb) * pb) by (nonlinear_arith)
                requires
                    fa < fb,
                    pb > 0,
            ;
        } else {
            let pa = pow2((ea - 1) as nat);
            lemma_pow2_pos((ea - 1) as nat);
            lemma_pow2_unfold(ea);
            if ea < eb - 1 {
                lemma_pow2_strictly_increases(ea, (eb - 1) as nat);
            }
            assert(2 * pa <= pb);
            assert((span + fa) * pa < span * (2 * pa)) by (nonlinear_arith)
                requires
                    fa < span,
                    pa > 0,
            ;
            assert(span * (2 * pa) <= span * pb) by (nonlinear_arith)
                requires
                    2 * pa <= pb,
            ;
        }
    }
}

/// Deciding the order on the bit patterns gives the order of the numbers.
pub proof fn lemma_lt_by_bits(a: Quantity, b: Quantity)
    ensures
        a@.lt(b@) == lt_by_bits(a.bits, b.bits),
{
    let ma = magnitude(a.bits);
    let mb = magnitude(b.bits);
    assert(units(0) == 0);
    if 0 < ma {
        lemma_units_strictly_increasing(0, ma);
    }
    if 0 < mb {
        lemma_units_strictly_increasing(0, mb);
    }
    if ma < mb {
        lemma_units_strictly_increasing(ma, mb);
    }
    if mb < ma {
        lemma_units_strictly_increasing(mb, ma);
    }
}

impl Quantity {
    /// Whether this amount is less than `other`, as `<` decides it on
    /// double-precision numbers.
    pub fn lt(&self, other: &Quantity) -> (below: bool)
        ensures
            below == self@.lt(other@),
    {
        proof {
            lemma_lt_by_bits(*self, *other);
        }
        let a_negative = self.bits >= SIGN_BIT;
        let b_negative = other.bits >= SIGN_BIT;
        let ma: u64 = if a_negative {
            self.bits - SIGN_BIT
        } else {
            self.bits
        };
        let mb: u64 = if b_negative {
            other.bits - SIGN_BIT
        } else {
            other.bits
        };
        if ma > INFINITY_MAGNITUDE || mb > INFINITY_MAGNITUDE {
            false
        } else if a_negative && b_negative {
            mb < ma
        } else if a_negative {
            ma != 0 || mb != 0
        } else if b_negative {
            false
        } else {
            ma < mb
        }
    }
}

} // verus!
