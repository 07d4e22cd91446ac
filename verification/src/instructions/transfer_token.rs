use vstd::prelude::*;

use crate::conversion::{pow10, scaling_in_range, to_smallest_unit};
use crate::error::RealEstateInvestmentTrustsError;
use crate::escrow::{TokenTransfer, TransferAuthority};
use crate::state::real_estate_investment_trust_scheme::RealEstateInvestmentTrustScheme;

verus! {

/// Parameters of [`transfer_token`].
pub struct TransferTokenParams {
    pub amount: u32,
}

/// When a direct transfer goes through: the scheme is initialized, the
/// amount is nonzero and the scaled amount fits the 64-bit width.
pub open spec fn transfer_token_ok(scheme: RealEstateInvestmentTrustScheme, amount: u32) -> bool {
    &&& scheme.is_initialized
    &&& amount != 0
    &&& scaling_in_range(amount as u64, scheme.decimals)
}

/// The failure a rejected direct transfer reports: the first violated
/// check, in the order the checks run.
pub open spec fn transfer_token_error(
    scheme: RealEstateInvestmentTrustScheme,
    amount: u32,
) -> RealEstateInvestmentTrustsError {
    if !scheme.is_initialized {
        RealEstateInvestmentTrustsError::AccountNotInitialized
    } else if amount == 0 {
        RealEstateInvestmentTrustsError::InvalidAmount
    } else {
        RealEstateInvestmentTrustsError::InvalidArithmeticOperation
    }
}

/// A raw value movement between two custody accounts: scales the display
/// amount by the scheme's decimals and asks the host for a caller-authorized
/// transfer of exactly that many smallest units. No ledger counter moves.
pub fn transfer_token(
    scheme: &RealEstateInvestmentTrustScheme,
    params: &TransferTokenParams,
) -> (r: Result<TokenTransfer, RealEstateInvestmentTrustsError>)
    ensures
        transfer_token_ok(*scheme, params.amount) ==> (r matches Ok(t) && t.amount == params.amount
            * pow10(scheme.decimals as nat) && t.expected_decimals is None
            && t.authority is Caller),
        !transfer_token_ok(*scheme, params.amount) ==> r == Err::<TokenTransfer, _>(
            transfer_token_error(*scheme, params.amount),
        ),
{
    if !scheme.is_initialized {
        return Err(RealEstateInvestmentTrustsError::AccountNotInitialized);
    }
    if params.amount == 0 {
        return Err(RealEstateInvestmentTrustsError::InvalidAmount);
    }
    let scaled = match to_smallest_unit(params.amount as u64, scheme.decimals) {
        Ok(v) => v,
        Err(e) => {
            return Err(e);
        },
    };
    Ok(TokenTransfer { amount: scaled, expected_decimals: None, authority: TransferAuthority::Caller })
}

} // verus!
