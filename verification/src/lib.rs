//! A client for the Anthropic messages API behind a Responses-style interface.
//!
//! [`endpoint`] turns a Responses API request into the body of a messages request; [`sse`] turns
//! the message stream that comes back into response events. Both are free of I/O.

pub mod common;
pub mod endpoint;
pub mod headers;
pub mod json;
pub mod requests;
pub mod sse;
pub mod text;
