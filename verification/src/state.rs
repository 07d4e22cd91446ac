pub mod account_id;
pub mod configs;
pub mod deposit_base;
pub mod investor;
pub mod market_issuer;
pub mod real_estate_investment_trust_scheme;
pub mod reits_type;
