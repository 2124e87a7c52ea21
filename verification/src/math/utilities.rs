//! Utilities

use vstd::prelude::*;

verus! {

use vstd::arithmetic::power::{pow, lemma_pow0, lemma_pow_increases};

/// Collection of functions related to getting a power of a number.
pub struct GetNumPower;

/// The base that `power_n` works with: the one supplied, or ten when
/// none is given.
pub open spec fn base_or_ten(base: Option<u32>) -> int {
    match base {
        Some(v) => v as int,
        None => 10,
    }
}

impl GetNumPower {
    /// Simple function for getting the power of a number given a base.
    ///
    /// Base defaults to base 10.
    pub fn power_n(power: u32, base: Option<u32>) -> (r: u32)
        requires
            pow(base_or_ten(base), power as nat) <= u32::MAX,
        ensures
            r == pow(base_or_ten(base), power as nat),
    {
        let b: u32 = match base {
            Some(v) => v,
            None => 10,
        };
        let mut result: u32 = 1;
        let mut i: u32 = 0;
        proof {
            lemma_pow0(b as int);
        }
        while i < power
            invariant
                i <= power,
                b as int == base_or_ten(base),
                pow(b as int, power as nat) <= u32::MAX,
                result == pow(b as int, i as nat),
            decreases power - i,
        {
            proof {
                reveal(pow);
                assert(pow(b as int, (i + 1) as nat) == b * pow(b as int, i as nat));
                vstd::arithmetic::mul::lemma_mul_is_commutative(b as int, result as int);
                if b > 0 {
                    lemma_pow_increases(b as nat, (i + 1) as nat, power as nat);
                } else {
                    assert(b * pow(b as int, i as nat) == 0) by (nonlinear_arith)
                        requires b == 0;
                }
                assert(result * b == pow(b as int, (i + 1) as nat));
            }
            result = result * b;
            i = i + 1;
        }
        result
    }

    /// Get the power of a number base 10.
    pub fn power_10(power: u32) -> (r: u32)
        requires
            pow(10, power as nat) <= u32::MAX,
        ensures
            r == pow(10, power as nat),
    {
        Self::power_n(power, None)
    }
}

/// Any base raised to the zeroth power is one, so `power_n(0, base)` and
/// `power_10(0)` both return 1.
pub proof fn lemma_power_zero(base: Option<u32>)
    ensures
        pow(base_or_ten(base), 0) == 1,
{
    lemma_pow0(base_or_ten(base));
}

/// A power of ten fits in a `u32` exactly when the exponent is at most
/// nine; this is the whole domain on which `power_10` may be called.
pub proof fn lemma_power_10_fits_u32(power: u32)
    ensures
        pow(10, power as nat) <= u32::MAX <==> power <= 9,
{
    reveal_with_fuel(pow, 11);
    if power <= 9 {
        lemma_pow_increases(10, power as nat, 9);
        assert(pow(10, 9) == 1_000_000_000);
    } else {
        lemma_pow_increases(10, 10, power as nat);
        assert(pow(10, 10) == 10_000_000_000);
    }
}

} // verus!
