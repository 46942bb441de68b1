//! The image client for Zhipu AI, which speaks the OpenAI image schema.

use vstd::prelude::*;
use crate::http_status::{failure_message, spec_failure_message, spec_is_status};
use crate::image_generation::openai::{images_from_decoded, spec_parse_response};
use crate::image_generation::types::{images_view, GeneratedImage, GeneratedImageV};
use crate::json::{decode, json_decoding};
use crate::text::owned;
use crate::types::{ProviderConfig, ProviderConfigV};

verus! {

/// The client for Zhipu AI's image endpoint.
pub struct ZhipuImageClient {
    config: ProviderConfig,
}

impl ZhipuImageClient {
    /// The provider that this client speaks to.
    pub closed spec fn provider(&self) -> ProviderConfigV {
        self.config@
    }

    /// A client for the provider described by `config`.
    pub fn new(config: ProviderConfig) -> (client: Self)
        ensures
            client.provider() == config@,
    {
        Self { config }
    }

    /// The configuration of the provider that this client speaks to.
    pub fn config(&self) -> (config: &ProviderConfig)
        ensures
            config@ == self.provider(),
    {
        &self.config
    }

    /// The failure reported when no secret is held for the provider.
    pub fn missing_key_message() -> (message: String)
        ensures
            message@
                == "API key not configured for Zhipu AI image generation / 智谱 AI 图片生成未配置 API 密钥"@,
    {
        owned("API key not configured for Zhipu AI image generation / 智谱 AI 图片生成未配置 API 密钥")
    }

    /// The failure reported when the provider answers with `status`.
    pub fn failure_message(status: u16, body: &str) -> (message: String)
        requires
            spec_is_status(status),
        ensures
            message@ == spec_failure_message(
                "Zhipu AI image generation failed"@,
                status,
                body@,
                " / 智谱 AI 图片生成失败"@,
            ),
    {
        failure_message("Zhipu AI image generation failed", status, body, " / 智谱 AI 图片生成失败")
    }

    /// Reads the images out of the text of an answer.
    pub fn parse_response(text: &str) -> (result: Result<Vec<GeneratedImage>, String>)
        ensures
            match result {
                Ok(images) => spec_parse_response(
                    json_decoding(text@),
                    "Failed to parse Zhipu AI response: "@,
                ) == Ok::<Seq<GeneratedImageV>, Seq<char>>(images_view(images@)),
                Err(message) => spec_parse_response(
                    json_decoding(text@),
                    "Failed to parse Zhipu AI response: "@,
                ) == Err::<Seq<GeneratedImageV>, Seq<char>>(message@),
            },
    {
        let decoded = decode(text);
        images_from_decoded(&decoded, "Failed to parse Zhipu AI response: ")
    }
}

} // verus!
