use vstd::prelude::*;

use crate::error::RealEstateInvestmentTrustsError;
use crate::instructions::buy_investment_trusts::buy_applied;
use crate::instructions::sell_investment_trusts::{sell_applied, sell_error, sell_ok};
use crate::state::deposit_base::DepositBase;
use crate::state::investor::Investor;
use crate::state::real_estate_investment_trust_scheme::RealEstateInvestmentTrustScheme;

verus! {

/// Round-trip law: a buy followed by a sell of the same amount restores the
/// investor's units, the investor's available funds and the scheme's
/// aggregate funds raised to their values before the buy.
pub proof fn lemma_buy_sell_round_trip(
    s0: RealEstateInvestmentTrustScheme,
    i0: Investor,
    deposit: DepositBase,
    amount: u32,
    s1: RealEstateInvestmentTrustScheme,
    i1: Investor,
    s2: RealEstateInvestmentTrustScheme,
    i2: Investor,
)
    requires
        buy_applied(s0, i0, amount, s1, i1),
        sell_applied(s1, i1, deposit, amount, s2, i2),
    ensures
        i2.total_units_investment_trusts == i0.total_units_investment_trusts,
        i2.available_funds == i0.available_funds,
        s2.investor_funds_raised == s0.investor_funds_raised,
{
}

/// The sell of the round trip is owed: after a buy, a sell of the same
/// amount against a provisioned escrow passes every sell check, provided
/// the investor held any funds at all before the buy. (With zero funds
/// before the buy the strict available-funds check rejects the sell.)
pub proof fn lemma_buy_enables_sell(
    s0: RealEstateInvestmentTrustScheme,
    i0: Investor,
    deposit: DepositBase,
    amount: u32,
    s1: RealEstateInvestmentTrustScheme,
    i1: Investor,
)
    requires
        buy_applied(s0, i0, amount, s1, i1),
        deposit.is_initialized,
        i0.available_funds > 0,
    ensures
        sell_ok(s1, i1, deposit, amount),
{
}

/// A sell can never drive the available funds below zero: whenever the
/// requested amount is at least the investor's available funds, the sell is
/// rejected with `InsufficientFunds` and, by the contract of
/// [`crate::instructions::sell_investment_trusts::sell_investment_trusts`],
/// changes nothing.
pub proof fn lemma_sell_rejects_insufficient_funds(
    scheme: RealEstateInvestmentTrustScheme,
    investor: Investor,
    deposit: DepositBase,
    amount: u32,
)
    requires
        scheme.is_initialized,
        investor.active,
        deposit.is_initialized,
        amount != 0,
        amount >= investor.available_funds,
    ensures
        !sell_ok(scheme, investor, deposit, amount),
        sell_error(scheme, investor, deposit, amount)
            == RealEstateInvestmentTrustsError::InsufficientFunds,
{
}

} // verus!
