//! Bridge between a voice-assistant smart-home directive protocol and a
//! private home-automation controller.
//!
//! The library holds the decisions of one forwarding round trip: decoding the
//! directive envelope, resolving the bearer credential, describing the request
//! that has to be sent to the controller, and mapping the controller's answer
//! back into the protocol's vocabulary. Sending the request is left to the
//! caller.

pub mod json;
pub mod error;
pub mod envelope;
pub mod header;
pub mod status;
pub mod credential;
pub mod bridge;
pub mod service;
