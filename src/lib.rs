//! Typed client binding for a paste-storage HTTP API.
//!
//! The library decides everything about a call except moving bytes: it
//! resolves endpoint URLs against the configured host, frames JSON request
//! bodies, attaches the bearer credential where the operation needs one and
//! classifies response statuses. Executing a request is left to an HTTP
//! transport supplied by the caller.
pub mod client;
pub mod error;
pub mod model;
mod outside;
pub mod urls;
