use real_estate_investment_trusts::error::RealEstateInvestmentTrustsError;
use real_estate_investment_trusts::instructions::init::{init, InitParams};
use real_estate_investment_trusts::instructions::register_investment_trust_scheme::{
    register_investment_trust_scheme, RegisterRealEstateInvestmentTrustSchemeParams,
};
use real_estate_investment_trusts::instructions::register_investor::{
    register_investor, RegisterInvestorParams,
};
use real_estate_investment_trusts::state::account_id::AccountId;
use real_estate_investment_trusts::state::configs::InvestmentTrustsConfigs;
use real_estate_investment_trusts::state::deposit_base::DepositBase;
use real_estate_investment_trusts::state::investor::Investor;
use real_estate_investment_trusts::state::market_issuer::MarketIssuer;
use real_estate_investment_trusts::state::real_estate_investment_trust_scheme::RealEstateInvestmentTrustScheme;
use real_estate_investment_trusts::state::reits_type::ReitsType;

fn fresh_configs() -> InvestmentTrustsConfigs {
    InvestmentTrustsConfigs {
        issuers: Vec::new(),
        is_initialized: false,
    }
}

fn initialized_configs() -> InvestmentTrustsConfigs {
    InvestmentTrustsConfigs {
        issuers: Vec::new(),
        is_initialized: true,
    }
}

fn fresh_scheme() -> RealEstateInvestmentTrustScheme {
    RealEstateInvestmentTrustScheme {
        owner: AccountId(0),
        issuer: MarketIssuer {
            issuer: String::new(),
            name: String::new(),
            type_of_reit: 0,
            listing_date: String::new(),
        },
        country: String::new(),
        active: false,
        investor_funds_raised: 0,
        is_initialized: false,
        investors: Vec::new(),
        unit_cost_of_investment_trusts: 0,
        decimals: 0,
    }
}

fn fresh_deposit() -> DepositBase {
    DepositBase {
        owner: AccountId(0),
        admin_auth_bump: 0,
        admin_treasury_vault_bump: None,
        is_initialized: false,
    }
}

fn fresh_investor() -> Investor {
    Investor {
        owner: AccountId(0),
        full_names: String::new(),
        country: String::new(),
        active: false,
        total_units_investment_trusts: 0,
        available_funds: 0,
    }
}

fn scheme_params(
    issuer: &str,
    name: &str,
    type_of_reit: u8,
    listing_date: &str,
    country: &str,
    unit_cost: u32,
    decimals: u8,
) -> RegisterRealEstateInvestmentTrustSchemeParams {
    RegisterRealEstateInvestmentTrustSchemeParams {
        issuer: MarketIssuer {
            issuer: String::from(issuer),
            name: String::from(name),
            type_of_reit,
            listing_date: String::from(listing_date),
        },
        country: String::from(country),
        unit_cost_of_investment_trusts: unit_cost,
        decimals,
    }
}

fn good_params() -> RegisterRealEstateInvestmentTrustSchemeParams {
    scheme_params("acme trusts", "acme reit one", 1, "2024-01-31", "KE", 10, 2)
}

fn register_err(
    params: &RegisterRealEstateInvestmentTrustSchemeParams,
) -> RealEstateInvestmentTrustsError {
    let mut configs = initialized_configs();
    let mut scheme = fresh_scheme();
    let mut deposit = fresh_deposit();
    register_investment_trust_scheme(
        &mut configs,
        &mut scheme,
        &mut deposit,
        AccountId(1),
        254,
        253,
        params,
    )
    .unwrap_err()
}

#[test]
fn init_marks_the_singleton() {
    let mut configs = fresh_configs();
    let params = InitParams {
        is_initialized: true,
    };
    assert_eq!(init(&mut configs, &params), Ok(()));
    assert!(configs.is_initialized);
}

#[test]
fn init_twice_fails_and_changes_nothing() {
    let mut configs = fresh_configs();
    let params = InitParams {
        is_initialized: true,
    };
    assert_eq!(init(&mut configs, &params), Ok(()));
    assert_eq!(
        init(&mut configs, &params),
        Err(RealEstateInvestmentTrustsError::AccountAlreadyInitialized)
    );
    assert!(configs.is_initialized);
    assert!(configs.issuers.is_empty());
}

#[test]
fn register_scheme_fills_every_record() {
    let mut configs = initialized_configs();
    let mut scheme = fresh_scheme();
    let mut deposit = fresh_deposit();
    let params = good_params();
    let r = register_investment_trust_scheme(
        &mut configs,
        &mut scheme,
        &mut deposit,
        AccountId(1),
        254,
        253,
        &params,
    );
    assert_eq!(r, Ok(()));

    assert_eq!(scheme.owner, AccountId(1));
    assert_eq!(scheme.issuer.issuer, "acme trusts");
    assert_eq!(scheme.issuer.name, "acme reit one");
    assert_eq!(scheme.issuer.type_of_reit, 1);
    assert_eq!(scheme.issuer.listing_date, "2024-01-31");
    assert_eq!(scheme.country, "KE");
    assert!(scheme.active);
    assert!(scheme.is_initialized);
    assert_eq!(scheme.investor_funds_raised, 0);
    assert!(scheme.investors.is_empty());
    assert_eq!(scheme.unit_cost_of_investment_trusts, 10);
    assert_eq!(scheme.decimals, 2);

    assert_eq!(deposit.owner, AccountId(1));
    assert_eq!(deposit.admin_auth_bump, 254);
    assert_eq!(deposit.admin_treasury_vault_bump, Some(253));
    assert!(deposit.is_initialized);

    assert_eq!(configs.issuers.len(), 1);
    assert_eq!(configs.issuers[0].issuer, "acme trusts");
}

#[test]
fn register_scheme_twice_fails_without_duplicate_entry() {
    let mut configs = initialized_configs();
    let mut scheme = fresh_scheme();
    let mut deposit = fresh_deposit();
    let params = good_params();
    let owner = AccountId(1);
    let r = register_investment_trust_scheme(
        &mut configs,
        &mut scheme,
        &mut deposit,
        owner,
        254,
        253,
        &params,
    );
    assert_eq!(r, Ok(()));
    let second = register_investment_trust_scheme(
        &mut configs,
        &mut scheme,
        &mut deposit,
        owner,
        254,
        253,
        &params,
    );
    assert_eq!(
        second,
        Err(RealEstateInvestmentTrustsError::AccountAlreadyInitialized)
    );
    assert_eq!(configs.issuers.len(), 1);
}

#[test]
fn register_scheme_needs_the_singleton() {
    let mut configs = fresh_configs();
    let mut scheme = fresh_scheme();
    let mut deposit = fresh_deposit();
    let r = register_investment_trust_scheme(
        &mut configs,
        &mut scheme,
        &mut deposit,
        AccountId(1),
        254,
        253,
        &good_params(),
    );
    assert_eq!(
        r,
        Err(RealEstateInvestmentTrustsError::AccountNotInitialized)
    );
    assert!(!scheme.is_initialized);
    assert!(!deposit.is_initialized);
}

#[test]
fn issuer_length_boundaries() {
    let long = "a".repeat(31);
    assert_eq!(
        register_err(&scheme_params("", "n", 1, "d", "KE", 10, 2)),
        RealEstateInvestmentTrustsError::InvalidIssuerLength
    );
    assert_eq!(
        register_err(&scheme_params(&long, "n", 1, "d", "KE", 10, 2)),
        RealEstateInvestmentTrustsError::InvalidIssuerLength
    );
    // 30 bytes is still accepted.
    let exact = "a".repeat(30);
    let mut configs = initialized_configs();
    let mut scheme = fresh_scheme();
    let mut deposit = fresh_deposit();
    let r = register_investment_trust_scheme(
        &mut configs,
        &mut scheme,
        &mut deposit,
        AccountId(1),
        254,
        253,
        &scheme_params(&exact, "n", 1, "d", "KE", 10, 2),
    );
    assert_eq!(r, Ok(()));
}

#[test]
fn name_length_boundaries() {
    let long = "b".repeat(31);
    assert_eq!(
        register_err(&scheme_params("i", "", 1, "d", "KE", 10, 2)),
        RealEstateInvestmentTrustsError::InvalidNameLength
    );
    assert_eq!(
        register_err(&scheme_params("i", &long, 1, "d", "KE", 10, 2)),
        RealEstateInvestmentTrustsError::InvalidNameLength
    );
}

#[test]
fn reit_type_code_must_be_recognized() {
    assert_eq!(
        register_err(&scheme_params("i", "n", 0, "d", "KE", 10, 2)),
        RealEstateInvestmentTrustsError::InvalidTypeOfReit
    );
    assert_eq!(
        register_err(&scheme_params("i", "n", 3, "d", "KE", 10, 2)),
        RealEstateInvestmentTrustsError::InvalidTypeOfReit
    );
}

#[test]
fn listing_date_length_boundaries() {
    let long = "c".repeat(21);
    assert_eq!(
        register_err(&scheme_params("i", "n", 2, "", "KE", 10, 2)),
        RealEstateInvestmentTrustsError::InvalidListingDateLength
    );
    assert_eq!(
        register_err(&scheme_params("i", "n", 2, &long, "KE", 10, 2)),
        RealEstateInvestmentTrustsError::InvalidListingDateLength
    );
}

#[test]
fn country_length_boundaries() {
    assert_eq!(
        register_err(&scheme_params("i", "n", 1, "d", "K", 10, 2)),
        RealEstateInvestmentTrustsError::InvalidCountryLength
    );
    assert_eq!(
        register_err(&scheme_params("i", "n", 1, "d", "KENY", 10, 2)),
        RealEstateInvestmentTrustsError::InvalidCountryLength
    );
    // Both 2- and 3-byte codes are accepted.
    let mut configs = initialized_configs();
    let mut scheme = fresh_scheme();
    let mut deposit = fresh_deposit();
    let r = register_investment_trust_scheme(
        &mut configs,
        &mut scheme,
        &mut deposit,
        AccountId(1),
        254,
        253,
        &scheme_params("i", "n", 1, "d", "KEN", 10, 2),
    );
    assert_eq!(r, Ok(()));
}

#[test]
fn zero_decimals_is_an_invalid_configuration() {
    assert_eq!(
        register_err(&scheme_params("i", "n", 1, "d", "KE", 10, 0)),
        RealEstateInvestmentTrustsError::InvalidNumeric
    );
}

#[test]
fn registry_capacity_is_enforced() {
    let mut configs = initialized_configs();
    for k in 0..5u64 {
        let mut scheme = fresh_scheme();
        let mut deposit = fresh_deposit();
        let r = register_investment_trust_scheme(
            &mut configs,
            &mut scheme,
            &mut deposit,
            AccountId(k),
            254,
            253,
            &good_params(),
        );
        assert_eq!(r, Ok(()));
    }
    assert_eq!(configs.issuers.len(), 5);
    let mut scheme = fresh_scheme();
    let mut deposit = fresh_deposit();
    let r = register_investment_trust_scheme(
        &mut configs,
        &mut scheme,
        &mut deposit,
        AccountId(9),
        254,
        253,
        &good_params(),
    );
    assert_eq!(r, Err(RealEstateInvestmentTrustsError::CapacityExceeded));
    assert_eq!(configs.issuers.len(), 5);
    assert!(!scheme.is_initialized);
    assert!(!deposit.is_initialized);
}

#[test]
fn register_investor_fills_the_record() {
    let mut investor = fresh_investor();
    let params = RegisterInvestorParams {
        full_names: String::from("Jane Wanjiku Doe"),
        country: String::from("KE"),
    };
    let r = register_investor(&mut investor, AccountId(5), &params);
    assert_eq!(r, Ok(()));
    assert_eq!(investor.owner, AccountId(5));
    assert_eq!(investor.full_names, "Jane Wanjiku Doe");
    assert_eq!(investor.country, "KE");
    assert!(investor.active);
    assert_eq!(investor.total_units_investment_trusts, 0);
    assert_eq!(investor.available_funds, 0);
}

#[test]
fn register_investor_full_names_boundaries() {
    let mut investor = fresh_investor();
    let empty = RegisterInvestorParams {
        full_names: String::new(),
        country: String::from("KE"),
    };
    assert_eq!(
        register_investor(&mut investor, AccountId(5), &empty),
        Err(RealEstateInvestmentTrustsError::InvalidFullNamesLength)
    );
    let long = RegisterInvestorParams {
        full_names: "x".repeat(51),
        country: String::from("KE"),
    };
    assert_eq!(
        register_investor(&mut investor, AccountId(5), &long),
        Err(RealEstateInvestmentTrustsError::InvalidFullNamesLength)
    );
    assert!(!investor.active);
}

#[test]
fn register_investor_country_boundaries() {
    let mut investor = fresh_investor();
    let short = RegisterInvestorParams {
        full_names: String::from("Jane Doe"),
        country: String::from("K"),
    };
    assert_eq!(
        register_investor(&mut investor, AccountId(5), &short),
        Err(RealEstateInvestmentTrustsError::InvalidCountryLength)
    );
    let long = RegisterInvestorParams {
        full_names: String::from("Jane Doe"),
        country: String::from("KENY"),
    };
    assert_eq!(
        register_investor(&mut investor, AccountId(5), &long),
        Err(RealEstateInvestmentTrustsError::InvalidCountryLength)
    );
}

#[test]
fn register_investor_twice_fails() {
    let mut investor = fresh_investor();
    let params = RegisterInvestorParams {
        full_names: String::from("Jane Doe"),
        country: String::from("KE"),
    };
    assert_eq!(register_investor(&mut investor, AccountId(5), &params), Ok(()));
    assert_eq!(
        register_investor(&mut investor, AccountId(5), &params),
        Err(RealEstateInvestmentTrustsError::AccountAlreadyInitialized)
    );
}

#[test]
fn reit_type_codes_round_trip() {
    assert_eq!(
        ReitsType::from_code(1),
        Some(ReitsType::DevelopmentRealEstateInvestmentTrusts)
    );
    assert_eq!(
        ReitsType::from_code(2),
        Some(ReitsType::IncomeRealEstateInvestmentTrust)
    );
    assert_eq!(ReitsType::from_code(0), None);
    assert_eq!(ReitsType::from_code(3), None);
    assert_eq!(ReitsType::DevelopmentRealEstateInvestmentTrusts.code(), 1);
    assert_eq!(ReitsType::IncomeRealEstateInvestmentTrust.code(), 2);
}
