//! Image generation: the choice of a provider's client, what each client
//! sends, and what it makes of the answer.

pub mod aigateway;
pub mod google;
pub mod openai;
pub mod service;
pub mod types;
pub mod zhipu;
