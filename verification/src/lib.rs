//! Client-side logic for a consumer router's web administration API:
//! the salted-hash login handshake, session-credential extraction,
//! authenticated request construction, network-counter extraction from
//! the status document, and the line-protocol body for a metric sink.

pub mod auth;
pub mod errors;
pub mod fetch;
pub mod hash;
pub mod json;
pub mod login;
pub mod metrics;
pub mod text;
