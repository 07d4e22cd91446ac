use vstd::prelude::*;

use crate::conversion::{pow10, scaling_in_range, to_smallest_unit};
use crate::error::RealEstateInvestmentTrustsError;
use crate::escrow::{TokenTransfer, TransferAuthority};
use crate::state::investor::Investor;
use crate::state::real_estate_investment_trust_scheme::RealEstateInvestmentTrustScheme;

verus! {

/// Parameters of [`buy_investment_trusts`].
pub struct BuyInvestmentTrustsParams {
    pub amount: u32,
}

/// When a buy goes through: the scheme is initialized, the investor is
/// active, the amount is nonzero, and none of the four checked operations —
/// the unit product and the three counter increments — overflows, nor does
/// the fixed-point scaling.
pub open spec fn buy_ok(
    scheme: RealEstateInvestmentTrustScheme,
    investor: Investor,
    amount: u32,
) -> bool {
    &&& scheme.is_initialized
    &&& investor.active
    &&& amount != 0
    &&& scheme.unit_cost_of_investment_trusts * amount <= u32::MAX
    &&& investor.total_units_investment_trusts + scheme.unit_cost_of_investment_trusts * amount
        <= u32::MAX
    &&& investor.available_funds + amount <= u32::MAX
    &&& scheme.investor_funds_raised + amount <= u32::MAX
    &&& scaling_in_range(amount as u64, scheme.decimals)
}

/// The failure a rejected buy reports: the first violated check, in the
/// order the checks run; every arithmetic overflow reports the same error.
pub open spec fn buy_error(
    scheme: RealEstateInvestmentTrustScheme,
    investor: Investor,
    amount: u32,
) -> RealEstateInvestmentTrustsError {
    if !scheme.is_initialized {
        RealEstateInvestmentTrustsError::AccountNotInitialized
    } else if !investor.active {
        RealEstateInvestmentTrustsError::InvalidInvestorStatus
    } else if amount == 0 {
        RealEstateInvestmentTrustsError::InvalidAmount
    } else {
        RealEstateInvestmentTrustsError::InvalidArithmeticOperation
    }
}

/// The ledger transition of a successful buy: the investor gains
/// `unit_cost * amount` units and `amount` funds, the scheme's aggregate
/// grows by `amount`, and nothing else about either record changes.
pub open spec fn buy_applied(
    s0: RealEstateInvestmentTrustScheme,
    i0: Investor,
    amount: u32,
    s1: RealEstateInvestmentTrustScheme,
    i1: Investor,
) -> bool {
    &&& buy_ok(s0, i0, amount)
    &&& s1 == (RealEstateInvestmentTrustScheme {
        investor_funds_raised: (s0.investor_funds_raised + amount) as u32,
        ..s0
    })
    &&& i1 == (Investor {
        total_units_investment_trusts: (i0.total_units_investment_trusts
            + s0.unit_cost_of_investment_trusts * amount) as u32,
        available_funds: (i0.available_funds + amount) as u32,
        ..i0
    })
}

/// A buy: the investor pays the caller-side custody and receives units.
///
/// All four checked computations run before any counter is written, so a
/// failed buy leaves both records exactly as they were and no transfer is
/// issued. On success the returned action tells the host to move
/// `amount * 10^decimals` smallest units out of the caller's custody under
/// the caller's own authority.
pub fn buy_investment_trusts(
    scheme: &mut RealEstateInvestmentTrustScheme,
    investor: &mut Investor,
    params: &BuyInvestmentTrustsParams,
) -> (r: Result<TokenTransfer, RealEstateInvestmentTrustsError>)
    ensures
        buy_ok(*old(scheme), *old(investor), params.amount) ==> ({
            &&& buy_applied(
                *old(scheme),
                *old(investor),
                params.amount,
                *final(scheme),
                *final(investor),
            )
            &&& (r matches Ok(t) && t.amount == params.amount * pow10(old(scheme).decimals as nat)
                && t.expected_decimals is None && t.authority is Caller)
        }),
        !buy_ok(*old(scheme), *old(investor), params.amount) ==> ({
            &&& r == Err::<TokenTransfer, _>(
                buy_error(*old(scheme), *old(investor), params.amount),
            )
            &&& *final(scheme) == *old(scheme)
            &&& *final(investor) == *old(investor)
        }),
{
    if !scheme.is_initialized {
        return Err(RealEstateInvestmentTrustsError::AccountNotInitialized);
    }
    if !investor.active {
        return Err(RealEstateInvestmentTrustsError::InvalidInvestorStatus);
    }
    let amount = params.amount;
    if amount == 0 {
        return Err(RealEstateInvestmentTrustsError::InvalidAmount);
    }

    let unit_investment_trusts = match scheme.unit_cost_of_investment_trusts.checked_mul(amount) {
        Some(v) => v,
        None => {
            return Err(RealEstateInvestmentTrustsError::InvalidArithmeticOperation);
        },
    };
    let new_total_units = match investor.total_units_investment_trusts.checked_add(
        unit_investment_trusts,
    ) {
        Some(v) => v,
        None => {
            return Err(RealEstateInvestmentTrustsError::InvalidArithmeticOperation);
        },
    };
    let new_available_funds = match investor.available_funds.checked_add(amount) {
        Some(v) => v,
        None => {
            return Err(RealEstateInvestmentTrustsError::InvalidArithmeticOperation);
        },
    };
    let new_funds_raised = match scheme.investor_funds_raised.checked_add(amount) {
        Some(v) => v,
        None => {
            return Err(RealEstateInvestmentTrustsError::InvalidArithmeticOperation);
        },
    };
    let scaled = match to_smallest_unit(amount as u64, scheme.decimals) {
        Ok(v) => v,
        Err(e) => {
            return Err(e);
        },
    };

    investor.total_units_investment_trusts = new_total_units;
    investor.available_funds = new_available_funds;
    scheme.investor_funds_raised = new_funds_raised;

    Ok(TokenTransfer { amount: scaled, expected_decimals: None, authority: TransferAuthority::Caller })
}

} // verus!
