//! The Account Balance API: requests the account balance of a shortcode.
//!
//! Endpoint: POST /mpesa/accountbalance/v1/query

use crate::parameters::{CommandIds, Identifiers};
use vstd::prelude::*;

verus! {

/// The request parameters of the account balance API.
#[derive(Debug, Clone)]
pub struct AccountBalance {
    /// The credential/username used to authenticate the transaction request.
    pub initiator: String,
    /// Base64 encoded Security Credential, encrypted with the M-Pesa public key.
    pub security_credential: String,
    /// The command passed to the M-Pesa system.
    pub command_id: CommandIds,
    /// The shortcode of the organisation receiving the transaction.
    pub party_b: String,
    /// Type of the organisation receiving the transaction.
    pub receiver_identifier_type: Identifiers,
    /// Comments that are sent along with the transaction.
    pub remarks: String,
    /// The end-point that receives a timeout message.
    pub queue_time_out_url: String,
    /// The end-point that receives a successful transaction.
    pub result_url: String,
    /// Organisation receiving the funds.
    pub account_type: String,
}

} // verus!
