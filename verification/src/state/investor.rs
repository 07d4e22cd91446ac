use vstd::prelude::*;

use crate::state::account_id::AccountId;

verus! {

/// The per-investor ledger record.
///
/// `total_units_investment_trusts` and `available_funds` move in lockstep:
/// a buy of `amount` adds `unit_cost * amount` units and `amount` funds, a
/// sell of `amount` removes the same quantities. A fresh record from the
/// host's store is all zeroes with `active == false`; registration fills it
/// and sets `active`, and `active` is what gates buying and selling.
pub struct Investor {
    /// Identity of the investor; the host authenticates the caller against
    /// it.
    pub owner: AccountId,
    /// Full names, 1 to 50 bytes.
    pub full_names: String,
    /// Home country code, exactly 2 or 3 bytes.
    pub country: String,
    /// Eligibility flag: buy and sell require it, and registration is what
    /// sets it, so it also marks the record as taken.
    pub active: bool,
    /// Units of investment trusts held; grows by `unit_cost * amount` on a
    /// buy.
    pub total_units_investment_trusts: u32,
    /// Funds the investor can redeem; grows by `amount` on a buy and never
    /// goes below zero.
    pub available_funds: u32,
}

} // verus!
