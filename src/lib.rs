//! Bindings for the M-Pesa payment API: the parameters of its requests, the codes it answers
//! with, and a cache for the access token that authorises each request.

pub mod access_token;
pub mod api_products;
pub mod parameters;
