//! Requests for images and the images that come back.

use vstd::prelude::*;
use crate::text::opt_view;

verus! {

/// What a consumer asks of an image model.
#[derive(Debug, Clone, PartialEq)]
pub struct ImageGenerationRequest {
    pub model: String,
    pub prompt: String,
    pub size: Option<String>,
    pub quality: Option<String>,
    pub n: Option<u32>,
    pub response_format: Option<String>,
}

/// One generated image: inline data or a link, with its media type.
#[derive(Debug, Clone, PartialEq)]
pub struct GeneratedImage {
    pub b64_json: Option<String>,
    pub url: Option<String>,
    pub mime_type: String,
    pub revised_prompt: Option<String>,
}

/// The images of one request and the provider that made them.
#[derive(Debug, Clone, PartialEq)]
pub struct ImageGenerationResponse {
    pub provider: String,
    pub images: Vec<GeneratedImage>,
    pub request_id: Option<String>,
}

/// The content of a generated image.
pub ghost struct GeneratedImageV {
    pub b64_json: Option<Seq<char>>,
    pub url: Option<Seq<char>>,
    pub mime_type: Seq<char>,
    pub revised_prompt: Option<Seq<char>>,
}

impl View for GeneratedImage {
    type V = GeneratedImageV;

    open spec fn view(&self) -> GeneratedImageV {
        GeneratedImageV {
            b64_json: opt_view(self.b64_json),
            url: opt_view(self.url),
            mime_type: self.mime_type@,
            revised_prompt: opt_view(self.revised_prompt),
        }
    }
}

/// The contents of a list of images.
pub open spec fn images_view(images: Seq<GeneratedImage>) -> Seq<GeneratedImageV> {
    images.map_values(|i: GeneratedImage| i@)
}

} // verus!
