use vstd::prelude::*;

use crate::state::market_issuer::MarketIssuer;

verus! {

/// Capacity of the issuer registry: a registration past this bound is
/// rejected rather than applied.
pub const MAX_ISSUERS: usize = 5;

/// The singleton process configuration record: an append-only, bounded
/// registry of the issuer profiles collected as schemes are registered.
///
/// Created once by `init`, which sets `is_initialized` and thereby refuses a
/// second `init`; every scheme registration appends one snapshot, and no
/// entry is ever removed.
pub struct InvestmentTrustsConfigs {
    /// The registered issuer profiles, in registration order, at most
    /// [`MAX_ISSUERS`] of them.
    pub issuers: Vec<MarketIssuer>,
    /// Set once by `init` and never unset.
    pub is_initialized: bool,
}

} // verus!
