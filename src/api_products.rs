//! The request parameters of each API product, one record per operation, with the fields that
//! the remote API documents for it.

pub mod account_balance;
pub mod b2c;
pub mod lipa_na_mpesa_online_query_request;
pub mod reversal;
pub mod transaction_status;
