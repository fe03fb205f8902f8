//! The Reversal API: reverses a B2B, B2C or C2B M-Pesa transaction.
//!
//! Endpoint: POST /mpesa/reversal/v1/request

use vstd::prelude::*;

verus! {

/// The request parameters of the reversal API.
#[derive(Debug, Clone)]
pub struct Reversal {
    /// The credential/username used to authenticate the transaction request.
    pub initiator: String,
    /// Base64 encoded Security Credential, encrypted with the M-Pesa public key.
    pub security_credential: String,
    /// The command for the transaction type; TransactionReversal.
    pub command_id: String,
    /// The organisation or MSISDN sending the transaction.
    pub party_a: String,
    /// Type of the organisation receiving the transaction.
    pub reciever_identifier_type: String,
    /// Comments that are sent along with the transaction.
    pub remarks: String,
    /// The path that stores information of a timed out transaction.
    pub queue_time_out_url: String,
    /// The path that stores information of the transaction.
    pub result_url: String,
    /// The transaction to reverse.
    pub transaction_id: String,
    /// Optional.
    pub occasion: String,
}

} // verus!
