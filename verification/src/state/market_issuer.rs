use vstd::prelude::*;

use crate::state::reits_type::spec_reits_type_from_code;
use crate::validation::{issuer_len_ok, listing_date_len_ok, name_len_ok};

verus! {

/// The issuer profile a scheme is registered under, and the snapshot of it
/// that the global registry keeps.
pub struct MarketIssuer {
    /// Issuer name, 1 to 30 bytes.
    pub issuer: String,
    /// Product name, 1 to 30 bytes.
    pub name: String,
    /// Raw trust-kind code; only the codes of [`crate::state::reits_type::ReitsType`]
    /// are accepted.
    pub type_of_reit: u8,
    /// Listing date string, 1 to 20 bytes.
    pub listing_date: String,
}

impl MarketIssuer {
    /// The registration rules on an issuer profile: every string within its
    /// byte bounds and the trust-kind code recognized.
    pub open spec fn valid(self) -> bool {
        &&& issuer_len_ok(self.issuer@)
        &&& name_len_ok(self.name@)
        &&& spec_reits_type_from_code(self.type_of_reit) is Some
        &&& listing_date_len_ok(self.listing_date@)
    }
}

} // verus!
