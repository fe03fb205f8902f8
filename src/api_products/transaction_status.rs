//! The Transaction Status API: the status of a B2B, B2C or C2B transaction.
//!
//! Endpoint: POST /mpesa/transactionstatus/v1/query

use vstd::prelude::*;

verus! {

/// The request parameters of the transaction status API.
#[derive(Debug, Clone)]
pub struct TransactionSatus {
    /// The command for the transaction type; TransactionStatusQuery.
    pub command_id: String,
    /// The organisation or MSISDN sending the transaction.
    pub short_code: String,
    /// Type of the organisation receiving the transaction.
    pub identifier_type: String,
    /// Comments that are sent along with the transaction.
    pub remarks: String,
    /// The name of the initiator of the request.
    pub initiator: String,
    /// Base64 encoded Security Credential, encrypted with the M-Pesa public key.
    pub security_credential: String,
    /// The path that stores information of a timed out transaction.
    pub queue_time_out_url: String,
    /// The path that stores information of the transaction.
    pub result_url: String,
    /// The transaction whose status is asked for.
    pub transaction_id: String,
    /// Optional.
    pub occasion: String,
}

} // verus!
