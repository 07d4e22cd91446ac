use vstd::prelude::*;

use crate::state::deposit_base::DepositBase;

verus! {

/// Who signs a token transfer that the engine requests.
#[derive(Clone, Copy, Debug)]
pub enum TransferAuthority {
    /// The caller signs with its own key, as on a buy or a direct transfer.
    Caller,
    /// The derived vault authority signs: the host reconstructs the signer
    /// from the fixed seed and this bump, as on a sell out of the escrow
    /// vault.
    DerivedVault { bump: u8 },
}

/// The one value-moving instruction an engine operation hands back to the
/// host. The ledger counters are already updated when it is produced; the
/// host must move exactly this many smallest units under this authority, or
/// roll the whole operation back.
#[derive(Clone, Copy, Debug)]
pub struct TokenTransfer {
    /// How much to move, in the token's smallest unit.
    pub amount: u64,
    /// When present, the transfer must be checked against the token's
    /// configured decimals and rejected on a mismatch.
    pub expected_decimals: Option<u8>,
    /// Who authorizes the movement.
    pub authority: TransferAuthority,
}

/// Constructs the one transfer the derived vault authority will sign: a
/// decimals-checked movement of exactly `amount` smallest units out of the
/// escrow vault, under the bump stored in the provisioned escrow record.
/// The caller never holds the authority's key; the bump is all the host
/// needs to reconstruct the signature.
pub fn authorize_transfer(deposit: &DepositBase, amount: u64, decimals: u8) -> (t: TokenTransfer)
    requires
        deposit.wf(),
        deposit.is_initialized,
    ensures
        t.amount == amount,
        t.expected_decimals == Some(decimals),
        (deposit.admin_treasury_vault_bump matches Some(b) && t.authority
            == (TransferAuthority::DerivedVault { bump: b })),
{
    let bump = match deposit.admin_treasury_vault_bump {
        Some(b) => b,
        // Unreachable: a provisioned record carries its bump.
        None => 0,
    };
    TokenTransfer {
        amount,
        expected_decimals: Some(decimals),
        authority: TransferAuthority::DerivedVault { bump },
    }
}

} // verus!
