//! How request bodies are sent.
use vstd::prelude::*;

verus! {

/// The compression that a caller asks for.
#[derive(Debug, Clone, Copy, PartialEq, Eq)]
pub enum Compression {
    Off,
    Zstd,
}

/// The compression that a transport applies.
#[derive(Debug, Clone, Copy, PartialEq, Eq)]
pub enum RequestCompression {
    Off,
    Zstd,
}

} // verus!
