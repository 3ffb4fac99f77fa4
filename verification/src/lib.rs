//! A verified core for a log-forwarding Lambda extension: line parsers for
//! the runtime log formats, a parse pipeline with a sentinel opt-out, a log
//! queue with drain-and-reinject semantics, a byte-bounded chunker, and the
//! request-shaping logic for the supported log destinations.
pub mod chunk;
pub mod extension;
pub mod handler;
pub mod json;
pub mod models;
pub mod parser;
pub mod queue;
pub mod text;

pub use text::parse_u32;
pub use text::parse_u64;
