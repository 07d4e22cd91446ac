use vstd::prelude::*;

use crate::error::RealEstateInvestmentTrustsError;

verus! {

/// The power of ten that scales a display amount to the token's smallest
/// unit.
pub open spec fn pow10(d: nat) -> nat
    decreases d,
{
    if d == 0 {
        1
    } else {
        10 * pow10((d - 1) as nat)
    }
}

pub proof fn lemma_pow10_pos(d: nat)
    ensures
        pow10(d) >= 1,
    decreases d,
{
    if d > 0 {
        lemma_pow10_pos((d - 1) as nat);
    }
}

pub proof fn lemma_pow10_monotone(a: nat, b: nat)
    requires
        a <= b,
    ensures
        pow10(a) <= pow10(b),
    decreases b,
{
    if a < b {
        lemma_pow10_monotone(a, (b - 1) as nat);
        lemma_pow10_pos((b - 1) as nat);
    }
}

/// The scaled amount `amount * 10^decimals` exists in the 64-bit width:
/// both the scale factor itself and the product fit.
pub open spec fn scaling_in_range(amount: u64, decimals: u8) -> bool {
    &&& pow10(decimals as nat) <= u64::MAX
    &&& amount * pow10(decimals as nat) <= u64::MAX
}

/// Converts a display amount into the token's smallest unit: exactly
/// `amount * 10^decimals`, by checked integer exponentiation and
/// multiplication. Fails, rather than wrapping, as soon as the scale factor
/// or the product leaves the 64-bit width.
pub fn to_smallest_unit(amount: u64, decimals: u8) -> (r: Result<
    u64,
    RealEstateInvestmentTrustsError,
>)
    ensures
        scaling_in_range(amount, decimals) ==> (r matches Ok(v) && v == amount * pow10(
            decimals as nat,
        )),
        !scaling_in_range(amount, decimals) ==> (r matches Err(e) && e
            == RealEstateInvestmentTrustsError::InvalidArithmeticOperation),
{
    let mut factor: u64 = 1;
    let mut i: u8 = 0;
    while i < decimals
        invariant
            i <= decimals,
            factor == pow10(i as nat),
        decreases decimals - i,
    {
        factor = match factor.checked_mul(10) {
            Some(f) => f,
            None => {
                proof {
                    lemma_pow10_monotone((i + 1) as nat, decimals as nat);
                }
                return Err(RealEstateInvestmentTrustsError::InvalidArithmeticOperation);
            },
        };
        i = i + 1;
    }
    match amount.checked_mul(factor) {
        Some(v) => Ok(v),
        None => Err(RealEstateInvestmentTrustsError::InvalidArithmeticOperation),
    }
}

/// For a fixed decimals exponent the conversion is injective: two display
/// amounts that scale to the same smallest-unit amount are equal.
pub proof fn lemma_to_smallest_unit_injective(a1: u64, a2: u64, decimals: u8)
    requires
        a1 * pow10(decimals as nat) == a2 * pow10(decimals as nat),
    ensures
        a1 == a2,
{
    lemma_pow10_pos(decimals as nat);
    let p = pow10(decimals as nat);
    assert(a1 == a2) by (nonlinear_arith)
        requires
            a1 * p == a2 * p,
            p >= 1,
    ;
}

} // verus!
