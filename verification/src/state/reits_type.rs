use vstd::prelude::*;

verus! {

/// The canonical domain representation of the kind of real-estate
/// investment trust a scheme issues.
#[derive(Clone, Copy, Debug, PartialEq, Eq, Structural)]
pub enum ReitsType {
    /// A development trust (D-REIT), raw code 1.
    DevelopmentRealEstateInvestmentTrusts,
    /// An income trust (I-REIT), raw code 2.
    IncomeRealEstateInvestmentTrust,
}

/// The trust kind a raw code stands for; codes other than 1 and 2 stand for
/// nothing and are rejected.
pub open spec fn spec_reits_type_from_code(code: u8) -> Option<ReitsType> {
    if code == 1 {
        Some(ReitsType::DevelopmentRealEstateInvestmentTrusts)
    } else if code == 2 {
        Some(ReitsType::IncomeRealEstateInvestmentTrust)
    } else {
        None
    }
}

impl ReitsType {
    /// Parses a raw trust-kind code into the enumeration; unrecognized codes
    /// are rejected.
    pub fn from_code(code: u8) -> (r: Option<ReitsType>)
        ensures
            r == spec_reits_type_from_code(code),
    {
        if code == 1 {
            Some(ReitsType::DevelopmentRealEstateInvestmentTrusts)
        } else if code == 2 {
            Some(ReitsType::IncomeRealEstateInvestmentTrust)
        } else {
            None
        }
    }

    /// The raw code this trust kind is stored as; parsing it back yields the
    /// same kind.
    pub fn code(&self) -> (c: u8)
        ensures
            spec_reits_type_from_code(c) == Some(*self),
    {
        match self {
            ReitsType::DevelopmentRealEstateInvestmentTrusts => 1,
            ReitsType::IncomeRealEstateInvestmentTrust => 2,
        }
    }
}

} // verus!
