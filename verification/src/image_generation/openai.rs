//! The image client for OpenAI and for providers that speak its image
//! schema: `POST <base>/images/generations` with a JSON body, answered by a
//! JSON document whose `data` lists the images.

use vstd::prelude::*;
use vstd::string::*;
use crate::http_status::{failure_message, spec_failure_message, spec_is_status};
use crate::image_generation::types::{
    images_view, GeneratedImage, GeneratedImageV, ImageGenerationRequest,
};
use crate::json::{
    decode, json_decoding, lemma_items_view, members_view,
    push_member, Decoded, DecodingV, Fields, Json, JsonV, Member,
};
use crate::text::{concat2, opt_view, owned, strip_trailing, trim_end_matches};
use crate::types::{ProviderConfig, ProviderConfigV};

verus! {

/// The address that image requests go to, for a provider at `base_url`.
pub open spec fn spec_endpoint(base_url: Seq<char>) -> Seq<char> {
    strip_trailing(base_url, '/') + "/images/generations"@
}

/// `fields` with a text member `key`, where `value` is present.
pub open spec fn with_optional_text(
    fields: Fields,
    key: Seq<char>,
    value: Option<Seq<char>>,
) -> Fields {
    match value {
        Some(text) => fields.push((key, JsonV::Str(text))),
        None => fields,
    }
}

/// The members of the request body: `model` and `prompt`, then `size`,
/// `quality`, `n` and `response_format`, each only where the request sets it.
pub open spec fn spec_request_fields(model: Seq<char>, request: ImageGenerationRequest) -> Fields {
    let required = seq![("model"@, JsonV::Str(model)), ("prompt"@, JsonV::Str(request.prompt@))];
    let sized = with_optional_text(required, "size"@, opt_view(request.size));
    let graded = with_optional_text(sized, "quality"@, opt_view(request.quality));
    let counted = match request.n {
        Some(n) => graded.push(("n"@, JsonV::Int(n as int))),
        None => graded,
    };
    with_optional_text(counted, "response_format"@, opt_view(request.response_format))
}

/// The headers of an image request made with `api_key`.
pub open spec fn spec_headers(api_key: Seq<char>) -> Seq<(Seq<char>, Seq<char>)> {
    seq![
        ("Content-Type"@, "application/json"@),
        ("Authorization"@, "Bearer "@ + api_key),
    ]
}

/// The text of member `key` of an image entry: absent and `null` both count
/// as not given; anything but text is a fault.
pub open spec fn optional_text(item: JsonV, key: Seq<char>) -> Result<Option<Seq<char>>, ()> {
    match item.member(key) {
        None => Ok(None),
        Some(JsonV::Null) => Ok(None),
        Some(JsonV::Str(text)) => Ok(Some(text)),
        Some(_) => Err(()),
    }
}

/// The image that one entry of `data` describes, where it is well formed.
pub open spec fn image_of(item: JsonV) -> Option<GeneratedImageV> {
    if item is Object && optional_text(item, "b64_json"@) is Ok && optional_text(item, "url"@) is Ok
        && optional_text(item, "revised_prompt"@) is Ok {
        Some(
            GeneratedImageV {
                b64_json: optional_text(item, "b64_json"@)->Ok_0,
                url: optional_text(item, "url"@)->Ok_0,
                mime_type: "image/png"@,
                revised_prompt: optional_text(item, "revised_prompt"@)->Ok_0,
            },
        )
    } else {
        None
    }
}

/// The images that the entries describe, in order, where all are well formed.
pub open spec fn images_of_items(items: Seq<JsonV>) -> Option<Seq<GeneratedImageV>>
    decreases items.len(),
{
    if items.len() == 0 {
        Some(Seq::empty())
    } else {
        match (images_of_items(items.drop_last()), image_of(items.last())) {
            (Some(before), Some(image)) => Some(before.push(image)),
            _ => None,
        }
    }
}

/// The images of an answer: those of its member `data`, which must be a list.
pub open spec fn images_of(document: JsonV) -> Option<Seq<GeneratedImageV>> {
    match document.member("data"@) {
        Some(JsonV::Array(items)) => images_of_items(items),
        _ => None,
    }
}

/// What an answer's text holds: its images, or the reason it has none, said
/// after `prefix`. For a text that is no JSON the reason is in the
/// decoder's own words.
pub open spec fn spec_parse_response(decoding: DecodingV, prefix: Seq<char>) -> Result<
    Seq<GeneratedImageV>,
    Seq<char>,
> {
    match decoding {
        DecodingV::Value(document) => match images_of(document) {
            Some(images) => Ok(images),
            None => Err(prefix + "unexpected shape"@),
        },
        _ => Err(prefix + decoding.words()),
    }
}

/// Builds the address that image requests go to.
pub fn endpoint(base_url: &str) -> (url: String)
    ensures
        url@ == spec_endpoint(base_url@),
{
    let mut url = trim_end_matches(base_url, '/');
    url.append("/images/generations");
    url
}

/// Adds a text member `key` to `members` where `value` is present.
fn push_optional_text(members: &mut Vec<Member>, key: &str, value: &Option<String>)
    ensures
        members_view(final(members)@) == with_optional_text(
            members_view(old(members)@),
            key@,
            opt_view(*value),
        ),
{
    match value {
        Some(text) => push_member(members, key, Json::Str(text.clone())),
        None => {},
    }
}

/// Builds the body of an image request for `model`.
pub fn request_body(model: &str, request: &ImageGenerationRequest) -> (body: Json)
    ensures
        body@ == JsonV::Object(spec_request_fields(model@, *request)),
{
    let mut members: Vec<Member> = Vec::new();
    push_member(&mut members, "model", Json::Str(owned(model)));
    push_member(&mut members, "prompt", Json::Str(request.prompt.clone()));
    assert(members_view(members@) =~= seq![
        ("model"@, JsonV::Str(model@)),
        ("prompt"@, JsonV::Str(request.prompt@)),
    ]);
    push_optional_text(&mut members, "size", &request.size);
    push_optional_text(&mut members, "quality", &request.quality);
    match request.n {
        Some(n) => push_member(&mut members, "n", Json::Int(n as i64)),
        None => {},
    }
    push_optional_text(&mut members, "response_format", &request.response_format);
    Json::Object(members)
}

/// Builds the headers of an image request made with `api_key`.
pub fn headers(api_key: &str) -> (list: Vec<(String, String)>)
    ensures
        crate::text::pairs_view(list@) == spec_headers(api_key@),
{
    let mut list: Vec<(String, String)> = Vec::new();
    list.push((owned("Content-Type"), owned("application/json")));
    list.push((owned("Authorization"), concat2("Bearer ", api_key)));
    list
}

/// Reads the optional text member `key` of an image entry.
fn read_optional_text(item: &Json, key: &str) -> (read: Result<Option<String>, ()>)
    ensures
        match read {
            Ok(text) => optional_text(item@, key@) == Ok::<Option<Seq<char>>, ()>(opt_view(text)),
            Err(_) => optional_text(item@, key@) is Err,
        },
{
    match item.get(key) {
        None => Ok(None),
        Some(value) => match value {
            Json::Null => Ok(None),
            Json::Str(text) => Ok(Some(text.clone())),
            _ => Err(()),
        },
    }
}

/// Reads one entry of `data`.
fn read_image(item: &Json) -> (read: Option<GeneratedImage>)
    ensures
        match read {
            Some(image) => image_of(item@) == Some(image@),
            None => image_of(item@) is None,
        },
{
    match item {
        Json::Object(_) => {},
        _ => {
            return None;
        },
    }
    let b64_json = match read_optional_text(item, "b64_json") {
        Ok(text) => text,
        Err(_) => {
            return None;
        },
    };
    let url = match read_optional_text(item, "url") {
        Ok(text) => text,
        Err(_) => {
            return None;
        },
    };
    let revised_prompt = match read_optional_text(item, "revised_prompt") {
        Ok(text) => text,
        Err(_) => {
            return None;
        },
    };
    Some(GeneratedImage { b64_json, url, mime_type: owned("image/png"), revised_prompt })
}

/// Reads the images of a decoded answer.
pub fn images_from(document: &Json) -> (read: Option<Vec<GeneratedImage>>)
    ensures
        match read {
            Some(images) => images_of(document@) == Some(images_view(images@)),
            None => images_of(document@) is None,
        },
{
    let items = match document.get("data") {
        Some(Json::Array(items)) => items,
        _ => {
            return None;
        },
    };
    let ghost views = crate::json::items_view(items@);
    proof {
        lemma_items_view(items@);
    }
    let mut images: Vec<GeneratedImage> = Vec::new();
    let mut i: usize = 0;
    while i < items.len()
        invariant
            i <= items.len(),
            views == crate::json::items_view(items@),
            document@.member("data"@) == Some(JsonV::Array(views)),
            views.len() == items.len(),
            forall|j: int| 0 <= j < items.len() ==> (#[trigger] views[j]) == items[j]@,
            images_of_items(views.take(i as int)) == Some(images_view(images@)),
        decreases items.len() - i,
    {
        proof {
            assert(views.take(i + 1).drop_last() =~= views.take(i as int));
        }
        match read_image(&items[i]) {
            Some(image) => {
                images.push(image);
            },
            None => {
                proof {
                    lemma_images_fault_stays(views, i + 1);
                }
                return None;
            },
        }
        i += 1;
    }
    proof {
        assert(views.take(i as int) =~= views);
    }
    Some(images)
}

/// Once a prefix of the entries holds a fault, so does the whole list.
pub proof fn lemma_images_fault_stays(items: Seq<JsonV>, n: int)
    requires
        0 <= n <= items.len(),
        images_of_items(items.take(n)) is None,
    ensures
        images_of_items(items) is None,
    decreases items.len() - n,
{
    if n < items.len() {
        assert(items.take(n + 1).drop_last() =~= items.take(n));
        lemma_images_fault_stays(items, n + 1);
    } else {
        assert(items.take(n) =~= items);
    }
}

/// Turns a decoded answer into its images, or into the reason it has none.
pub fn images_from_decoded(decoded: &Decoded, prefix: &str) -> (result: Result<
    Vec<GeneratedImage>,
    String,
>)
    ensures
        match result {
            Ok(images) => spec_parse_response(decoded@, prefix@) == Ok::<
                Seq<GeneratedImageV>,
                Seq<char>,
            >(images_view(images@)),
            Err(message) => spec_parse_response(decoded@, prefix@) == Err::<
                Seq<GeneratedImageV>,
                Seq<char>,
            >(message@),
        },
{
    match decoded {
        Decoded::Value(document) => match images_from(document) {
            Some(images) => Ok(images),
            None => Err(concat2(prefix, "unexpected shape")),
        },
        Decoded::Truncated(words) => Err(concat2(prefix, words.as_str())),
        Decoded::Malformed(words) => Err(concat2(prefix, words.as_str())),
    }
}

/// The client for OpenAI's image endpoint.
pub struct OpenAiImageClient {
    config: ProviderConfig,
}

impl OpenAiImageClient {
    /// The provider that this client speaks to.
    pub closed spec fn provider(&self) -> ProviderConfigV {
        self.config@
    }

    /// A client for the provider described by `config`.
    pub fn new(config: ProviderConfig) -> (client: Self)
        ensures
            client.provider() == config@,
    {
        Self { config }
    }

    /// The configuration of the provider that this client speaks to.
    pub fn config(&self) -> (config: &ProviderConfig)
        ensures
            config@ == self.provider(),
    {
        &self.config
    }

    /// The failure reported when no secret is held for the provider.
    pub fn missing_key_message() -> (message: String)
        ensures
            message@
                == "API key not configured for OpenAI image generation / OpenAI 图片生成未配置 API 密钥"@,
    {
        owned("API key not configured for OpenAI image generation / OpenAI 图片生成未配置 API 密钥")
    }

    /// The failure reported when the provider answers with `status`.
    pub fn failure_message(status: u16, body: &str) -> (message: String)
        requires
            spec_is_status(status),
        ensures
            message@ == spec_failure_message(
                "OpenAI image generation failed"@,
                status,
                body@,
                " / OpenAI 图片生成失败"@,
            ),
    {
        failure_message("OpenAI image generation failed", status, body, " / OpenAI 图片生成失败")
    }

    /// Reads the images out of the text of an answer.
    pub fn parse_response(text: &str) -> (result: Result<Vec<GeneratedImage>, String>)
        ensures
            match result {
                Ok(images) => spec_parse_response(
                    json_decoding(text@),
                    "Failed to parse OpenAI response: "@,
                ) == Ok::<Seq<GeneratedImageV>, Seq<char>>(images_view(images@)),
                Err(message) => spec_parse_response(
                    json_decoding(text@),
                    "Failed to parse OpenAI response: "@,
                ) == Err::<Seq<GeneratedImageV>, Seq<char>>(message@),
            },
    {
        let decoded = decode(text);
        images_from_decoded(&decoded, "Failed to parse OpenAI response: ")
    }
}

} // verus!
