use vstd::prelude::*;

use crate::error::RealEstateInvestmentTrustsError;
use crate::state::account_id::AccountId;
use crate::state::configs::{InvestmentTrustsConfigs, MAX_ISSUERS};
use crate::state::deposit_base::DepositBase;
use crate::state::market_issuer::MarketIssuer;
use crate::state::real_estate_investment_trust_scheme::RealEstateInvestmentTrustScheme;
use crate::state::reits_type::{spec_reits_type_from_code, ReitsType};
use crate::validation::{
    country_len_ok, issuer_len_ok, listing_date_len_ok, name_len_ok, str_byte_count,
    COUNTRY_LENGTH, COUNTRY_LENGTH_2, ISSUER_LENGTH, LISTING_DATE_LENGTH, NAME_LENGTH,
};

verus! {

/// Parameters of [`register_investment_trust_scheme`].
pub struct RegisterRealEstateInvestmentTrustSchemeParams {
    /// The issuer profile the scheme is registered under.
    pub issuer: MarketIssuer,
    /// Country code the scheme is implemented in.
    pub country: String,
    /// Price per unit, in display units.
    pub unit_cost_of_investment_trusts: u32,
    /// Fixed-point scale exponent of the scheme's token.
    pub decimals: u8,
}

/// The failure a rejected parameter set reports: the first violated input
/// rule, in the order the checks run.
pub open spec fn scheme_params_error(
    p: RegisterRealEstateInvestmentTrustSchemeParams,
) -> RealEstateInvestmentTrustsError {
    if !issuer_len_ok(p.issuer.issuer@) {
        RealEstateInvestmentTrustsError::InvalidIssuerLength
    } else if !name_len_ok(p.issuer.name@) {
        RealEstateInvestmentTrustsError::InvalidNameLength
    } else if spec_reits_type_from_code(p.issuer.type_of_reit) is None {
        RealEstateInvestmentTrustsError::InvalidTypeOfReit
    } else if !listing_date_len_ok(p.issuer.listing_date@) {
        RealEstateInvestmentTrustsError::InvalidListingDateLength
    } else if !country_len_ok(p.country@) {
        RealEstateInvestmentTrustsError::InvalidCountryLength
    } else {
        RealEstateInvestmentTrustsError::InvalidNumeric
    }
}

/// When a scheme registration goes through: the configuration singleton
/// exists, neither target record is taken yet, the inputs pass validation
/// and the issuer registry still has room.
pub open spec fn register_scheme_ok(
    configs: InvestmentTrustsConfigs,
    scheme: RealEstateInvestmentTrustScheme,
    deposit: DepositBase,
    p: RegisterRealEstateInvestmentTrustSchemeParams,
) -> bool {
    &&& configs.is_initialized
    &&& !scheme.is_initialized
    &&& !deposit.is_initialized
    &&& RealEstateInvestmentTrustScheme::params_valid(p.issuer, p.country@, p.decimals)
    &&& configs.issuers.len() < MAX_ISSUERS
}

/// The failure a rejected scheme registration reports: the first violated
/// check, in the order the checks run.
pub open spec fn register_scheme_error(
    configs: InvestmentTrustsConfigs,
    scheme: RealEstateInvestmentTrustScheme,
    deposit: DepositBase,
    p: RegisterRealEstateInvestmentTrustSchemeParams,
) -> RealEstateInvestmentTrustsError {
    if !configs.is_initialized {
        RealEstateInvestmentTrustsError::AccountNotInitialized
    } else if scheme.is_initialized || deposit.is_initialized {
        RealEstateInvestmentTrustsError::AccountAlreadyInitialized
    } else if !RealEstateInvestmentTrustScheme::params_valid(p.issuer, p.country@, p.decimals) {
        scheme_params_error(p)
    } else {
        RealEstateInvestmentTrustsError::CapacityExceeded
    }
}

/// Registers a scheme: validates the issuer profile, country and decimals,
/// then fills the scheme record, provisions the escrow record with the two
/// derivation bumps the host computed, and appends the issuer snapshot to
/// the global registry. Every check runs before any record is touched, so a
/// rejected registration changes nothing anywhere.
pub fn register_investment_trust_scheme(
    configs: &mut InvestmentTrustsConfigs,
    scheme: &mut RealEstateInvestmentTrustScheme,
    deposit_account: &mut DepositBase,
    owner: AccountId,
    auth_bump: u8,
    treasury_vault_bump: u8,
    params: &RegisterRealEstateInvestmentTrustSchemeParams,
) -> (r: Result<(), RealEstateInvestmentTrustsError>)
    ensures
        register_scheme_ok(*old(configs), *old(scheme), *old(deposit_account), *params) ==> ({
            &&& r is Ok
            &&& final(scheme).owner == owner
            &&& final(scheme).issuer == params.issuer
            &&& final(scheme).country == params.country
            &&& final(scheme).active
            &&& final(scheme).investor_funds_raised == 0
            &&& final(scheme).is_initialized
            &&& final(scheme).investors@ =~= Seq::<AccountId>::empty()
            &&& final(scheme).unit_cost_of_investment_trusts
                == params.unit_cost_of_investment_trusts
            &&& final(scheme).decimals == params.decimals
            &&& *final(deposit_account) == (DepositBase {
                owner,
                admin_auth_bump: auth_bump,
                admin_treasury_vault_bump: Some(treasury_vault_bump),
                is_initialized: true,
            })
            &&& final(configs).is_initialized
            &&& final(configs).issuers@ =~= old(configs).issuers@.push(params.issuer)
        }),
        !register_scheme_ok(*old(configs), *old(scheme), *old(deposit_account), *params) ==> ({
            &&& r == Err::<(), _>(
                register_scheme_error(*old(configs), *old(scheme), *old(deposit_account), *params),
            )
            &&& *final(configs) == *old(configs)
            &&& *final(scheme) == *old(scheme)
            &&& *final(deposit_account) == *old(deposit_account)
        }),
{
    if !configs.is_initialized {
        return Err(RealEstateInvestmentTrustsError::AccountNotInitialized);
    }
    if scheme.is_initialized || deposit_account.is_initialized {
        return Err(RealEstateInvestmentTrustsError::AccountAlreadyInitialized);
    }
    let issuer_len = str_byte_count(&params.issuer.issuer);
    if !(1 <= issuer_len && issuer_len <= ISSUER_LENGTH) {
        return Err(RealEstateInvestmentTrustsError::InvalidIssuerLength);
    }
    let name_len = str_byte_count(&params.issuer.name);
    if !(1 <= name_len && name_len <= NAME_LENGTH) {
        return Err(RealEstateInvestmentTrustsError::InvalidNameLength);
    }
    if ReitsType::from_code(params.issuer.type_of_reit).is_none() {
        return Err(RealEstateInvestmentTrustsError::InvalidTypeOfReit);
    }
    let listing_date_len = str_byte_count(&params.issuer.listing_date);
    if !(1 <= listing_date_len && listing_date_len <= LISTING_DATE_LENGTH) {
        return Err(RealEstateInvestmentTrustsError::InvalidListingDateLength);
    }
    let country_len = str_byte_count(&params.country);
    if country_len != COUNTRY_LENGTH && country_len != COUNTRY_LENGTH_2 {
        return Err(RealEstateInvestmentTrustsError::InvalidCountryLength);
    }
    if params.decimals == 0 {
        return Err(RealEstateInvestmentTrustsError::InvalidNumeric);
    }
    if configs.issuers.len() >= MAX_ISSUERS {
        return Err(RealEstateInvestmentTrustsError::CapacityExceeded);
    }

    deposit_account.owner = owner;
    deposit_account.admin_auth_bump = auth_bump;
    deposit_account.admin_treasury_vault_bump = Some(treasury_vault_bump);
    deposit_account.is_initialized = true;

    scheme.owner = owner;
    scheme.issuer = MarketIssuer {
        issuer: params.issuer.issuer.clone(),
        name: params.issuer.name.clone(),
        type_of_reit: params.issuer.type_of_reit,
        listing_date: params.issuer.listing_date.clone(),
    };
    scheme.country = params.country.clone();
    scheme.active = true;
    scheme.investor_funds_raised = 0;
    scheme.is_initialized = true;
    scheme.investors = Vec::new();
    scheme.unit_cost_of_investment_trusts = params.unit_cost_of_investment_trusts;
    scheme.decimals = params.decimals;

    let market_issuer = MarketIssuer {
        issuer: params.issuer.issuer.clone(),
        name: params.issuer.name.clone(),
        type_of_reit: params.issuer.type_of_reit,
        listing_date: params.issuer.listing_date.clone(),
    };
    configs.issuers.push(market_issuer);

    Ok(())
}

} // verus!
