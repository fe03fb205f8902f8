//! The B2C API: business to customer transactions between a company and the end users of its
//! products or services. It needs a valid and verified B2C M-Pesa shortcode.
//!
//! Endpoint: POST /mpesa/b2c/v1/paymentrequest

use vstd::prelude::*;

verus! {

/// The request parameters of the B2C API.
#[derive(Debug, Clone)]
pub struct B2C {
    /// The credential/username used to authenticate the transaction request.
    pub initiator_name: String,
    /// Base64 encoded Security Credential, encrypted with the M-Pesa public key.
    pub security_credential: String,
    /// The command for the transaction type, e.g. SalaryPayment, BusinessPayment, PromotionPayment.
    pub command_id: String,
    /// The amount being transacted.
    pub amount: String,
    /// The shortcode of the organisation initiating the transaction.
    pub party_a: String,
    /// The phone number receiving the transaction.
    pub party_b: String,
    /// Comments that are sent along with the transaction.
    pub remarks: String,
    /// The end-point that receives a timeout response.
    pub queue_time_out_url: String,
    /// The end-point that receives the response of the transaction.
    pub result_url: String,
    /// Optional.
    pub occasion: String,
}

} // verus!
