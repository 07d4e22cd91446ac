use vstd::prelude::*;

use crate::error::RealEstateInvestmentTrustsError;
use crate::state::account_id::AccountId;
use crate::state::investor::Investor;
use crate::validation::{
    country_len_ok, full_names_len_ok, str_byte_count, COUNTRY_LENGTH, COUNTRY_LENGTH_2,
    FULL_NAMES_LENGTH,
};

verus! {

/// Parameters of [`register_investor`].
pub struct RegisterInvestorParams {
    pub full_names: String,
    pub country: String,
}

/// The registration rules on an investor's inputs: full names of 1 to 50
/// bytes and a 2- or 3-byte country code.
pub open spec fn investor_params_valid(p: RegisterInvestorParams) -> bool {
    &&& full_names_len_ok(p.full_names@)
    &&& country_len_ok(p.country@)
}

/// When an investor registration goes through: the record is still free and
/// the inputs pass validation.
pub open spec fn register_investor_ok(investor: Investor, p: RegisterInvestorParams) -> bool {
    &&& !investor.active
    &&& investor_params_valid(p)
}

/// The failure a rejected investor registration reports: the first violated
/// check, in the order the checks run.
pub open spec fn register_investor_error(
    investor: Investor,
    p: RegisterInvestorParams,
) -> RealEstateInvestmentTrustsError {
    if investor.active {
        RealEstateInvestmentTrustsError::AccountAlreadyInitialized
    } else if !full_names_len_ok(p.full_names@) {
        RealEstateInvestmentTrustsError::InvalidFullNamesLength
    } else {
        RealEstateInvestmentTrustsError::InvalidCountryLength
    }
}

/// Registers an investor: validates the inputs, then fills the record with
/// the caller's identity, the given profile, zeroed counters and the active
/// flag set. A record that is already taken, or any rejected input, leaves
/// the record exactly as it was.
pub fn register_investor(
    investor: &mut Investor,
    owner: AccountId,
    params: &RegisterInvestorParams,
) -> (r: Result<(), RealEstateInvestmentTrustsError>)
    ensures
        register_investor_ok(*old(investor), *params) ==> (r is Ok && *final(investor) == (Investor {
            owner,
            full_names: params.full_names,
            country: params.country,
            active: true,
            total_units_investment_trusts: 0u32,
            available_funds: 0u32,
        })),
        !register_investor_ok(*old(investor), *params) ==> (r == Err::<(), _>(
            register_investor_error(*old(investor), *params),
        ) && *final(investor) == *old(investor)),
{
    if investor.active {
        return Err(RealEstateInvestmentTrustsError::AccountAlreadyInitialized);
    }
    let names_len = str_byte_count(&params.full_names);
    if !(1 <= names_len && names_len <= FULL_NAMES_LENGTH) {
        return Err(RealEstateInvestmentTrustsError::InvalidFullNamesLength);
    }
    let country_len = str_byte_count(&params.country);
    if country_len != COUNTRY_LENGTH && country_len != COUNTRY_LENGTH_2 {
        return Err(RealEstateInvestmentTrustsError::InvalidCountryLength);
    }
    investor.owner = owner;
    investor.full_names = params.full_names.clone();
    investor.country = params.country.clone();
    investor.active = true;
    investor.total_units_investment_trusts = 0;
    investor.available_funds = 0;
    Ok(())
}

} // verus!
