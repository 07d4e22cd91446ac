pub mod buy_investment_trusts;
pub mod init;
pub mod register_investment_trust_scheme;
pub mod register_investor;
pub mod sell_investment_trusts;
pub mod transfer_token;
