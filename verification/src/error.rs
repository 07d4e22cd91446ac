use vstd::prelude::*;

verus! {

/// Every failure an engine operation can report.
///
/// Validation errors name the rejected input field; state errors say that a
/// precondition on a shared record was violated; `InvalidArithmeticOperation`
/// covers every overflow or underflow of the checked counter arithmetic;
/// `InsufficientFunds` is the business-rule rejection of a sell that the
/// investor cannot cover; `CapacityExceeded` reports a full issuer registry.
#[derive(Clone, Copy, Debug, PartialEq, Eq, Structural)]
pub enum RealEstateInvestmentTrustsError {
    InvalidIssuerLength,
    InvalidNameLength,
    InvalidTypeOfReit,
    InvalidListingDateLength,
    InvalidAmount,
    InvalidNumeric,
    InvalidCountryLength,
    InvalidArithmeticOperation,
    InvalidFullNamesLength,
    InvalidInvestorStatus,
    InsufficientFunds,
    AccountNotInitialized,
    AccountAlreadyInitialized,
    CapacityExceeded,
}

} // verus!
