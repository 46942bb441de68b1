//! Telemetry for LLM operations: traces, spans and their events, as commands
//! for a writer that stores them.

pub mod attributes;
pub mod helpers;
pub mod span;
pub mod types;
