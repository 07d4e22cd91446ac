use vstd::prelude::*;

use crate::conversion::{pow10, scaling_in_range, to_smallest_unit};
use crate::error::RealEstateInvestmentTrustsError;
use crate::escrow::{authorize_transfer, TokenTransfer, TransferAuthority};
use crate::state::deposit_base::DepositBase;
use crate::state::investor::Investor;
use crate::state::real_estate_investment_trust_scheme::RealEstateInvestmentTrustScheme;

verus! {

/// Parameters of [`sell_investment_trusts`].
pub struct SellInvestmentTrustsParams {
    pub amount: u32,
}

/// When a sell goes through: scheme, investor and escrow are all in order,
/// the amount is nonzero, the investor's available funds strictly exceed
/// the amount, and none of the checked operations — the unit product and
/// the three counter decrements — underflows or overflows, nor does the
/// fixed-point scaling.
pub open spec fn sell_ok(
    scheme: RealEstateInvestmentTrustScheme,
    investor: Investor,
    deposit: DepositBase,
    amount: u32,
) -> bool {
    &&& scheme.is_initialized
    &&& investor.active
    &&& deposit.is_initialized
    &&& amount != 0
    &&& investor.available_funds > amount
    &&& scheme.unit_cost_of_investment_trusts * amount <= u32::MAX
    &&& scheme.unit_cost_of_investment_trusts * amount
        <= investor.total_units_investment_trusts
    &&& amount <= scheme.investor_funds_raised
    &&& scaling_in_range(amount as u64, scheme.decimals)
}

/// The failure a rejected sell reports: the first violated check, in the
/// order the checks run; every arithmetic failure reports the same error.
pub open spec fn sell_error(
    scheme: RealEstateInvestmentTrustScheme,
    investor: Investor,
    deposit: DepositBase,
    amount: u32,
) -> RealEstateInvestmentTrustsError {
    if !scheme.is_initialized {
        RealEstateInvestmentTrustsError::AccountNotInitialized
    } else if !investor.active {
        RealEstateInvestmentTrustsError::InvalidInvestorStatus
    } else if !deposit.is_initialized {
        RealEstateInvestmentTrustsError::AccountNotInitialized
    } else if amount == 0 {
        RealEstateInvestmentTrustsError::InvalidAmount
    } else if investor.available_funds <= amount {
        RealEstateInvestmentTrustsError::InsufficientFunds
    } else {
        RealEstateInvestmentTrustsError::InvalidArithmeticOperation
    }
}

/// The ledger transition of a successful sell: the exact inverse of a buy
/// of the same amount — the investor loses `unit_cost * amount` units and
/// `amount` funds, the scheme's aggregate shrinks by `amount`, and nothing
/// else about either record changes.
pub open spec fn sell_applied(
    s0: RealEstateInvestmentTrustScheme,
    i0: Investor,
    deposit: DepositBase,
    amount: u32,
    s1: RealEstateInvestmentTrustScheme,
    i1: Investor,
) -> bool {
    &&& sell_ok(s0, i0, deposit, amount)
    &&& s1 == (RealEstateInvestmentTrustScheme {
        investor_funds_raised: (s0.investor_funds_raised - amount) as u32,
        ..s0
    })
    &&& i1 == (Investor {
        total_units_investment_trusts: (i0.total_units_investment_trusts
            - s0.unit_cost_of_investment_trusts * amount) as u32,
        available_funds: (i0.available_funds - amount) as u32,
        ..i0
    })
}

/// A sell: the investor redeems units and is paid out of the escrow vault.
///
/// All checks and checked computations run before any counter is written,
/// so a failed sell leaves both records exactly as they were and no
/// transfer is issued. On success the returned action tells the host to
/// move `amount * 10^decimals` smallest units out of the vault, checked
/// against the scheme's decimals, under the derived vault authority with
/// the bump stored in the escrow record — no caller-held key signs it.
pub fn sell_investment_trusts(
    scheme: &mut RealEstateInvestmentTrustScheme,
    investor: &mut Investor,
    deposit_account: &DepositBase,
    params: &SellInvestmentTrustsParams,
) -> (r: Result<TokenTransfer, RealEstateInvestmentTrustsError>)
    requires
        deposit_account.wf(),
    ensures
        sell_ok(*old(scheme), *old(investor), *deposit_account, params.amount) ==> ({
            &&& sell_applied(
                *old(scheme),
                *old(investor),
                *deposit_account,
                params.amount,
                *final(scheme),
                *final(investor),
            )
            &&& (r matches Ok(t) && t.amount == params.amount * pow10(old(scheme).decimals as nat)
                && t.expected_decimals == Some(old(scheme).decimals)
                && (deposit_account.admin_treasury_vault_bump matches Some(b) && t.authority
                == (TransferAuthority::DerivedVault { bump: b })))
        }),
        !sell_ok(*old(scheme), *old(investor), *deposit_account, params.amount) ==> ({
            &&& r == Err::<TokenTransfer, _>(
                sell_error(*old(scheme), *old(investor), *deposit_account, params.amount),
            )
            &&& *final(scheme) == *old(scheme)
            &&& *final(investor) == *old(investor)
        }),
{
    if !scheme.is_initialized {
        return Err(RealEstateInvestmentTrustsError::AccountNotInitialized);
    }
    if !investor.active {
        return Err(RealEstateInvestmentTrustsError::InvalidInvestorStatus);
    }
    if !deposit_account.is_initialized {
        return Err(RealEstateInvestmentTrustsError::AccountNotInitialized);
    }
    let amount = params.amount;
    if amount == 0 {
        return Err(RealEstateInvestmentTrustsError::InvalidAmount);
    }
    if !(investor.available_funds > amount) {
        return Err(RealEstateInvestmentTrustsError::InsufficientFunds);
    }

    let unit_investment_trusts = match scheme.unit_cost_of_investment_trusts.checked_mul(amount) {
        Some(v) => v,
        None => {
            return Err(RealEstateInvestmentTrustsError::InvalidArithmeticOperation);
        },
    };
    let new_total_units = match investor.total_units_investment_trusts.checked_sub(
        unit_investment_trusts,
    ) {
        Some(v) => v,
        None => {
            return Err(RealEstateInvestmentTrustsError::InvalidArithmeticOperation);
        },
    };
    let new_available_funds = match investor.available_funds.checked_sub(amount) {
        Some(v) => v,
        None => {
            return Err(RealEstateInvestmentTrustsError::InvalidArithmeticOperation);
        },
    };
    let new_funds_raised = match scheme.investor_funds_raised.checked_sub(amount) {
        Some(v) => v,
        None => {
            return Err(RealEstateInvestmentTrustsError::InvalidArithmeticOperation);
        },
    };
    let scaled = match to_smallest_unit(amount as u64, scheme.decimals) {
        Ok(v) => v,
        Err(e) => {
            return Err(e);
        },
    };
    investor.total_units_investment_trusts = new_total_units;
    investor.available_funds = new_available_funds;
    scheme.investor_funds_raised = new_funds_raised;

    Ok(authorize_transfer(deposit_account, scaled, scheme.decimals))
}

} // verus!
