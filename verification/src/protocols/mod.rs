//! The protocol adapters: one request builder and one stream parser for
//! each wire-format family.

pub mod request_builder;
pub mod stream_parser;
pub mod transport;
