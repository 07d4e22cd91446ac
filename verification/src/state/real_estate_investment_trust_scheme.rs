use vstd::prelude::*;

use crate::state::account_id::AccountId;
use crate::state::market_issuer::MarketIssuer;
use crate::validation::country_len_ok;

verus! {

/// The per-scheme ledger record: the registered investment-trust product
/// whose units investors buy and sell.
pub struct RealEstateInvestmentTrustScheme {
    /// Identity of the administrator who registered the scheme.
    pub owner: AccountId,
    /// The issuer profile the scheme was registered under.
    pub issuer: MarketIssuer,
    /// Country code the scheme is implemented in, exactly 2 or 3 bytes.
    pub country: String,
    /// Status flag; set by registration. Trading is gated by
    /// `is_initialized` and by the investor's own `active` flag, not by
    /// this one: the scheme-level flag is recorded but deliberately does
    /// not gate buy or sell.
    pub active: bool,
    /// Aggregate funds raised from investors; grows by `amount` on a buy and
    /// shrinks by `amount` on a sell.
    pub investor_funds_raised: u32,
    /// Set once by registration and never unset; buy, sell and transfer
    /// require it.
    pub is_initialized: bool,
    /// Bounded list of investor identities.
    pub investors: Vec<AccountId>,
    /// Price per unit, in display units.
    pub unit_cost_of_investment_trusts: u32,
    /// Exponent of the fixed-point scale between display amounts and the
    /// token's smallest unit; zero is an invalid configuration and is
    /// rejected at registration.
    pub decimals: u8,
}

impl RealEstateInvestmentTrustScheme {
    /// The registration rules on a scheme's inputs: a valid issuer profile,
    /// a 2- or 3-byte country code and a nonzero decimals exponent.
    pub open spec fn params_valid(issuer: MarketIssuer, country: Seq<char>, decimals: u8) -> bool {
        &&& issuer.valid()
        &&& country_len_ok(country)
        &&& decimals != 0
    }
}

} // verus!
