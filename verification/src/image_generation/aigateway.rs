//! The image client for the AI gateway, which forwards to the OpenAI client.

use vstd::prelude::*;
use crate::image_generation::openai::OpenAiImageClient;
use crate::types::{ProviderConfig, ProviderConfigV};

verus! {

/// The client for the AI gateway's image endpoint.
pub struct AIGatewayImageClient {
    client: OpenAiImageClient,
}

impl AIGatewayImageClient {
    /// The provider that this client speaks to.
    pub closed spec fn provider(&self) -> ProviderConfigV {
        self.client.provider()
    }

    /// A client for the provider described by `config`.
    pub fn new(config: ProviderConfig) -> (client: Self)
        ensures
            client.provider() == config@,
    {
        Self { client: OpenAiImageClient::new(config) }
    }

    /// The OpenAI client that requests are handed to.
    pub fn inner(&self) -> (client: &OpenAiImageClient)
        ensures
            client.provider() == self.provider(),
    {
        &self.client
    }
}

} // verus!
