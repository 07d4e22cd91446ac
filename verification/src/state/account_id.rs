use vstd::prelude::*;

verus! {

/// The identity of an account holder: the administrator who registers a
/// scheme, the investor who buys and sells, the owner of an escrow record.
///
/// The engine only ever compares identities and stores them; the host maps
/// its own key material onto these handles.
#[derive(Clone, Copy, Debug, PartialEq, Eq, Structural)]
pub struct AccountId(pub u64);

} // verus!
