//! Client library for a local-network lighting bridge that speaks JSON over HTTP.
//!
//! The library holds the protocol engine: the bridge's error-code table, the
//! sparse command encoder, response-envelope decoding, the link-button
//! registration state machine, and the request and listing logic of a bridge
//! handle. Transport and JSON tokenization are left to the caller.

/// Errors that can occur when talking to a bridge
pub mod errors;
/// Decimal numbers and JSON text
pub mod text;
/// The data exchanged with the bridge
pub mod hue;
/// Bridges, registration and requests
pub mod bridge;
