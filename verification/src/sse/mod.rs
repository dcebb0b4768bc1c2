//! Decoders of server-sent event streams.
pub mod anthropic;
pub mod laws;
pub mod poll_laws;
