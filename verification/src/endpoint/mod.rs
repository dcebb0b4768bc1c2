//! Endpoints that a model provider offers.
pub mod anthropic;
pub mod body_laws;
pub mod laws;
