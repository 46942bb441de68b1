//! The gateway between feature services and third-party LLM HTTP APIs.
//!
//! A consumer asks for a completion from a model. The gateway finds the
//! providers that serve the model ([`model_resolver`]), writes the request
//! in the schema of each provider's wire-format family
//! ([`protocols::request_builder`]), reads the streamed answer into one
//! kind of event whatever the family ([`sse`], [`protocols::stream_parser`]),
//! falls back from one provider to the next and renews rejected credentials
//! once ([`stream_runner`]), and gathers the answer under a deadline
//! ([`stream_collector`]).
//!
//! Nothing here opens a connection or stores a secret, and the clock is
//! read in one place only, where a span is closed. The runner and the
//! collector are state machines: the transport tells them what it observed
//! and they tell it what to do. Functions are verified against contracts
//! over the mathematical content of their arguments; the few that call
//! `serde_json`, `reqwest` and `chrono` are marked and say what their
//! contracts claim of the outside code.
//!
//! Around the gateway stand the services that use it: completions for the
//! editor ([`completion_service`]), commit messages
//! ([`git_message_service`]), image generation ([`image_generation`]), the
//! usage of an OpenAI account ([`openai_usage`]), telemetry ([`tracing`]) and
//! the answers of the server's API ([`server_types`]).

pub mod completion_service;
pub mod git_message_service;
pub mod http_status;
pub mod image_generation;
pub mod json;
pub mod model_resolver;
pub mod models;
pub mod openai_usage;
pub mod protocols;
pub mod providers;
pub mod server_types;
pub mod sse;
pub mod stream_collector;
pub mod stream_runner;
pub mod text;
pub mod tracing;
pub mod types;
pub mod utf;
