//! The Lipa na M-Pesa online query API: the status of an STK push.
//!
//! Endpoint: POST /mpesa/stkpushquery/v1/query

use vstd::prelude::*;

verus! {

/// The request parameters of the Lipa na M-Pesa online query API.
#[derive(Debug, Clone)]
pub struct LipaNaMpesaOnlineQueryRequest {
    /// Business shortcode.
    pub business_short_code: String,
    /// Password.
    pub password: String,
    /// Timestamp.
    pub timestamp: String,
    /// Checkout request ID.
    pub checkout_request_id: String,
}

/// The fields of a reply to a Lipa na M-Pesa online query.
#[derive(Debug, Clone, Copy, PartialEq, Eq, Structural)]
pub enum LipaNaMpesaOnlineQueryRequestResponse {
    /// Merchant request ID
    MerchantRequestID,
    /// Checkout request ID
    CheckoutRequestID,
    /// Response code
    ResponseCode,
    /// Result description
    ResultDesc,
    /// Response description message
    ResponseDescription,
    /// Result code
    ResultCode,
}

} // verus!
