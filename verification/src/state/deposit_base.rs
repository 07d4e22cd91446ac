use vstd::prelude::*;

use crate::state::account_id::AccountId;

verus! {

/// The escrow record of a scheme: the value-holding vault's bookkeeping.
///
/// The vault's spending authority is a derived signer: an address computed
/// deterministically by the host from a fixed seed and this record's
/// address, together with a bump value that makes the derivation valid and
/// reproducible. No private key exists for it; whoever holds the seed and
/// the stored bump can reconstruct the authorization, scoped to this
/// engine's logic. Registration provisions the record and stores the bumps.
pub struct DepositBase {
    /// Identity of the administrator the escrow belongs to.
    pub owner: AccountId,
    /// Derivation bump of the vault authority.
    pub admin_auth_bump: u8,
    /// Derivation bump of the vault sub-account; present once the record is
    /// provisioned.
    pub admin_treasury_vault_bump: Option<u8>,
    /// Set once when registration provisions the escrow.
    pub is_initialized: bool,
}

impl DepositBase {
    /// Well-formedness of the record: a provisioned escrow always carries
    /// its vault bump, so authorizing an outbound transfer never finds it
    /// missing.
    pub open spec fn wf(self) -> bool {
        self.is_initialized ==> self.admin_treasury_vault_bump is Some
    }
}

} // verus!
