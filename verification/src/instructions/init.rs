use vstd::prelude::*;

use crate::error::RealEstateInvestmentTrustsError;
use crate::state::configs::InvestmentTrustsConfigs;

verus! {

/// Parameters of [`init`]. The record's own flag, not this one, decides
/// whether the call is a replay.
pub struct InitParams {
    pub is_initialized: bool,
}

/// Creates the singleton configuration record: marks it initialized exactly
/// once. A second call finds the flag set, changes nothing and reports the
/// replay.
pub fn init(configs: &mut InvestmentTrustsConfigs, _params: &InitParams) -> (r: Result<
    (),
    RealEstateInvestmentTrustsError,
>)
    ensures
        old(configs).is_initialized ==> (r == Err::<(), _>(
            RealEstateInvestmentTrustsError::AccountAlreadyInitialized,
        ) && *final(configs) == *old(configs)),
        !old(configs).is_initialized ==> (r is Ok && *final(configs) == (InvestmentTrustsConfigs {
            is_initialized: true,
            ..*old(configs)
        })),
{
    if configs.is_initialized {
        return Err(RealEstateInvestmentTrustsError::AccountAlreadyInitialized);
    }
    configs.is_initialized = true;
    Ok(())
}

} // verus!
