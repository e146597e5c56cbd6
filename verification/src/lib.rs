//! Webhook ingress library: constant-time signature verification, header-driven
//! dispatch, payload decoding, schema-bound binary encoding, and the mapping of
//! each failure class to a distinct HTTP status.

pub mod auth;
pub mod codec;
pub mod data;
pub mod pipeline;
