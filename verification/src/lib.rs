//! Webhook authentication and freshness verification for deliveries of a
//! published topic event.
//!
//! The crate checks that an inbound HTTP delivery carries a payload signed
//! with the shared secret (HMAC-SHA3-256 over the canonical JSON form of the
//! payload, hex encoded), that its publish timestamp is within the freshness
//! window, and extracts the inner timed event for latency computation.

pub mod chars;
pub mod json;
pub mod payload;
pub mod signature;
pub mod freshness;
pub mod model;
pub mod handler;
pub mod laws;
