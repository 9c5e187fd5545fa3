//! What one espresso takes, and whether a supply covers it.

use vstd::prelude::*;
use vstd::arithmetic::power2::{lemma2_to64_rest, lemma_pow2_adds, pow2};
use crate::quantity::{whole, Quantity};

verus! {

/// Volume units of water that one espresso takes.
pub const WATER_PER_ESPRESSO: u64 = 25;

/// Mass units of coffee beans that one espresso takes.
pub const BEANS_PER_ESPRESSO: u64 = 7;

/// The bit pattern of 25.0: exponent 4, fraction 1001 followed by zeros.
const WATER_PER_ESPRESSO_BITS: u64 = 0x4039_0000_0000_0000;

/// The bit pattern of 7.0: exponent 2, fraction 11 followed by zeros.
const BEANS_PER_ESPRESSO_BITS: u64 = 0x401C_0000_0000_0000;

/// The tank holds less water than one espresso takes.
pub open spec fn spec_lacks_water(volume: Quantity) -> bool {
    volume@.lt(whole(WATER_PER_ESPRESSO as nat))
}

/// There are fewer beans than one espresso takes.
pub open spec fn spec_lacks_beans(mass: Quantity) -> bool {
    mass@.lt(whole(BEANS_PER_ESPRESSO as nat))
}

/// The two bit patterns stand for the two whole numbers of the recipe.
proof fn lemma_recipe_patterns()
    ensures
        (Quantity { bits: WATER_PER_ESPRESSO_BITS })@ == whole(WATER_PER_ESPRESSO as nat),
        (Quantity { bits: BEANS_PER_ESPRESSO_BITS })@ == whole(BEANS_PER_ESPRESSO as nat),
{
    lemma2_to64_rest();
    let p48 = pow2(48);
    let p50 = pow2(50);
    assert(pow2(1074) == p48 * pow2(1026)) by {
        lemma_pow2_adds(48, 1026);
    }
    assert(pow2(1074) == p50 * pow2(1024)) by {
        lemma_pow2_adds(50, 1024);
    }
    assert((25 * p48) * pow2(1026) == 25 * (p48 * pow2(1026))) by (nonlinear_arith);
    assert((7 * p50) * pow2(1024) == 7 * (p50 * pow2(1024))) by (nonlinear_arith);
}

/// Whether `volume` is too little water for one espresso.
#[verifier::when_used_as_spec(spec_lacks_water)]
pub fn lacks_water(volume: Quantity) -> (short: bool)
    ensures
        short == spec_lacks_water(volume),
{
    proof {
        lemma_recipe_patterns();
    }
    volume.lt(&Quantity { bits: WATER_PER_ESPRESSO_BITS })
}

/// Whether `mass` is too few beans for one espresso.
#[verifier::when_used_as_spec(spec_lacks_beans)]
pub fn lacks_beans(mass: Quantity) -> (short: bool)
    ensures
        short == spec_lacks_beans(mass),
{
    proof {
        lemma_recipe_patterns();
    }
    mass.lt(&Quantity { bits: BEANS_PER_ESPRESSO_BITS })
}

} // verus!
