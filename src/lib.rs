//! A small client for sending one transactional email through an HTTP JSON
//! API: it assembles the request, and classifies the provider's reply.
pub mod client;
pub mod codec;
pub mod laws;
pub mod payload;
pub mod response;

pub use client::{OutboundRequest, ResendSDK, ResendSDKInterface};
pub use payload::EmailPayload;
pub use response::{accept_body, classify_response, classify_status, DispatchError, ResendSDKResponse};
