//! The image client for Google: `POST <base>/models/<model>:generateContent`
//! with the prompt as one text part, answered by candidates whose parts hold
//! inline image data.

use vstd::prelude::*;
use vstd::string::*;
use crate::http_status::{failure_message, spec_failure_message, spec_is_status};
use crate::image_generation::types::{
    images_view, GeneratedImage, GeneratedImageV, ImageGenerationRequest,
};
use crate::json::{
    array1, decode, items_view, json_decoding, lemma_items_view,
    object1, object2, Decoded, DecodingV, Json, JsonV,
};
use crate::text::{owned, strip_trailing, trim_end_matches};

verus! {

/// The address of Google's generative language service.
pub open spec fn default_base_url() -> Seq<char> {
    "https://generativelanguage.googleapis.com/v1beta"@
}

/// The address that a request for `model` goes to, with the key in it.
pub open spec fn spec_endpoint(base_url: Seq<char>, model: Seq<char>, api_key: Seq<char>) -> Seq<
    char,
> {
    strip_trailing(base_url, '/') + "/models/"@ + model + ":generateContent?key="@ + api_key
}

/// The body of a request: one content with one text part, the prompt.
pub open spec fn spec_request_body(prompt: Seq<char>) -> JsonV {
    JsonV::Object(
        seq![
            (
                "contents"@,
                JsonV::Array(
                    seq![
                        JsonV::Object(
                            seq![
                                (
                                    "parts"@,
                                    JsonV::Array(
                                        seq![
                                            JsonV::Object(
                                                seq![
                                                    ("type"@, JsonV::Str("text"@)),
                                                    ("text"@, JsonV::Str(prompt)),
                                                ],
                                            ),
                                        ],
                                    ),
                                ),
                            ],
                        ),
                    ],
                ),
            ),
        ],
    )
}

/// The inline image of a part, where the part holds one: an `inline_data`
/// object with a text `mime_type` and a text `data`.
pub open spec fn inline_image(part: JsonV) -> Option<GeneratedImageV> {
    match part.member("inline_data"@) {
        Some(inline) => match (inline.member("mime_type"@), inline.member("data"@)) {
            (Some(JsonV::Str(mime)), Some(JsonV::Str(data))) => Some(
                GeneratedImageV {
                    b64_json: Some(data),
                    url: None,
                    mime_type: mime,
                    revised_prompt: None,
                },
            ),
            _ => None,
        },
        None => None,
    }
}

/// Whether a part is well formed: it holds an inline image or a text.
pub open spec fn part_ok(part: JsonV) -> bool {
    inline_image(part) is Some || part.member("text"@) matches Some(JsonV::Str(_))
}

/// The images of a list of parts, in order, where every part is well formed.
pub open spec fn parts_images(parts: Seq<JsonV>) -> Option<Seq<GeneratedImageV>>
    decreases parts.len(),
{
    if parts.len() == 0 {
        Some(Seq::empty())
    } else {
        match parts_images(parts.drop_last()) {
            Some(before) => if !part_ok(parts.last()) {
                None
            } else {
                match inline_image(parts.last()) {
                    Some(image) => Some(before.push(image)),
                    None => Some(before),
                }
            },
            None => None,
        }
    }
}

/// The images of one candidate: those of the parts of its content.
pub open spec fn candidate_images(candidate: JsonV) -> Option<Seq<GeneratedImageV>> {
    match candidate.member("content"@) {
        Some(content) => match content.member("parts"@) {
            Some(JsonV::Array(parts)) => parts_images(parts),
            _ => None,
        },
        None => None,
    }
}

/// The images of a list of candidates, in order, where every candidate is
/// well formed.
pub open spec fn candidates_images(candidates: Seq<JsonV>) -> Option<Seq<GeneratedImageV>>
    decreases candidates.len(),
{
    if candidates.len() == 0 {
        Some(Seq::empty())
    } else {
        match (
            candidates_images(candidates.drop_last()),
            candidate_images(candidates.last()),
        ) {
            (Some(before), Some(images)) => Some(before + images),
            _ => None,
        }
    }
}

/// The images of an answer: those of its member `candidates`, a list.
pub open spec fn images_of(document: JsonV) -> Option<Seq<GeneratedImageV>> {
    match document.member("candidates"@) {
        Some(JsonV::Array(candidates)) => candidates_images(candidates),
        _ => None,
    }
}

/// What an answer's text holds: its images, or the reason it has none. For
/// a text that is no JSON the reason is in the decoder's own words.
pub open spec fn spec_parse_response(decoding: DecodingV) -> Result<
    Seq<GeneratedImageV>,
    Seq<char>,
> {
    match decoding {
        DecodingV::Value(document) => match images_of(document) {
            Some(images) => Ok(images),
            None => Err("Failed to parse Google response: unexpected shape"@),
        },
        _ => Err("Failed to parse Google response: "@ + decoding.words()),
    }
}

/// Once a prefix of the parts holds a fault, so does the whole list.
pub proof fn lemma_parts_fault_stays(parts: Seq<JsonV>, n: int)
    requires
        0 <= n <= parts.len(),
        parts_images(parts.take(n)) is None,
    ensures
        parts_images(parts) is None,
    decreases parts.len() - n,
{
    if n < parts.len() {
        assert(parts.take(n + 1).drop_last() =~= parts.take(n));
        lemma_parts_fault_stays(parts, n + 1);
    } else {
        assert(parts.take(n) =~= parts);
    }
}

/// Once a prefix of the candidates holds a fault, so does the whole list.
pub proof fn lemma_candidates_fault_stays(candidates: Seq<JsonV>, n: int)
    requires
        0 <= n <= candidates.len(),
        candidates_images(candidates.take(n)) is None,
    ensures
        candidates_images(candidates) is None,
    decreases candidates.len() - n,
{
    if n < candidates.len() {
        assert(candidates.take(n + 1).drop_last() =~= candidates.take(n));
        lemma_candidates_fault_stays(candidates, n + 1);
    } else {
        assert(candidates.take(n) =~= candidates);
    }
}

/// Reads the inline image of a part.
fn read_inline_image(part: &Json) -> (read: Option<GeneratedImage>)
    ensures
        match read {
            Some(image) => inline_image(part@) == Some(image@),
            None => inline_image(part@) is None,
        },
{
    match part.get("inline_data") {
        Some(inline) => match (inline.get("mime_type"), inline.get("data")) {
            (Some(Json::Str(mime)), Some(Json::Str(data))) => Some(
                GeneratedImage {
                    b64_json: Some(data.clone()),
                    url: None,
                    mime_type: mime.clone(),
                    revised_prompt: None,
                },
            ),
            _ => None,
        },
        None => None,
    }
}

/// Tells whether a part holds a text.
fn has_text(part: &Json) -> (b: bool)
    ensures
        b == (part@.member("text"@) matches Some(JsonV::Str(_))),
{
    match part.get("text") {
        Some(Json::Str(_)) => true,
        _ => false,
    }
}

/// Appends the images of one candidate to `images`.
fn read_candidate(candidate: &Json, images: &mut Vec<GeneratedImage>) -> (ok: bool)
    ensures
        match candidate_images(candidate@) {
            Some(found) => ok && images_view(final(images)@) == images_view(old(images)@) + found,
            None => !ok,
        },
{
    let parts = match candidate.get("content") {
        Some(content) => match content.get("parts") {
            Some(Json::Array(parts)) => parts,
            _ => {
                return false;
            },
        },
        None => {
            return false;
        },
    };
    let ghost views = items_view(parts@);
    let ghost before = images_view(images@);
    proof {
        lemma_items_view(parts@);
    }
    let mut i: usize = 0;
    while i < parts.len()
        invariant
            i <= parts.len(),
            views == items_view(parts@),
            views.len() == parts.len(),
            candidate_images(candidate@) == parts_images(views),
            forall|j: int| 0 <= j < parts.len() ==> (#[trigger] views[j]) == parts[j]@,
            parts_images(views.take(i as int)) is Some,
            images_view(images@) == before + parts_images(views.take(i as int))->Some_0,
        decreases parts.len() - i,
    {
        proof {
            assert(views.take(i + 1).drop_last() =~= views.take(i as int));
        }
        match read_inline_image(&parts[i]) {
            Some(image) => {
                let ghost prev = images@;
                images.push(image);
                assert(images_view(images@) =~= images_view(prev).push(image@));
            },
            None => {
                if !has_text(&parts[i]) {
                    proof {
                        lemma_parts_fault_stays(views, i + 1);
                    }
                    return false;
                }
            },
        }
        i += 1;
    }
    proof {
        assert(views.take(i as int) =~= views);
    }
    true
}

/// Reads the images of a decoded answer.
pub fn images_from(document: &Json) -> (read: Option<Vec<GeneratedImage>>)
    ensures
        match read {
            Some(images) => images_of(document@) == Some(images_view(images@)),
            None => images_of(document@) is None,
        },
{
    let candidates = match document.get("candidates") {
        Some(Json::Array(candidates)) => candidates,
        _ => {
            return None;
        },
    };
    let ghost views = items_view(candidates@);
    proof {
        lemma_items_view(candidates@);
    }
    let mut images: Vec<GeneratedImage> = Vec::new();
    let mut i: usize = 0;
    while i < candidates.len()
        invariant
            i <= candidates.len(),
            views == items_view(candidates@),
            views.len() == candidates.len(),
            images_of(document@) == candidates_images(views),
            forall|j: int| 0 <= j < candidates.len() ==> (#[trigger] views[j]) == candidates[j]@,
            candidates_images(views.take(i as int)) == Some(images_view(images@)),
        decreases candidates.len() - i,
    {
        proof {
            assert(views.take(i + 1).drop_last() =~= views.take(i as int));
        }
        if !read_candidate(&candidates[i], &mut images) {
            proof {
                lemma_candidates_fault_stays(views, i + 1);
            }
            return None;
        }
        i += 1;
    }
    proof {
        assert(views.take(i as int) =~= views);
    }
    Some(images)
}

/// Turns a decoded answer into its images, or into the reason it has none.
pub fn images_from_decoded(decoded: &Decoded) -> (result: Result<Vec<GeneratedImage>, String>)
    ensures
        match result {
            Ok(images) => spec_parse_response(decoded@) == Ok::<Seq<GeneratedImageV>, Seq<char>>(
                images_view(images@),
            ),
            Err(message) => spec_parse_response(decoded@) == Err::<
                Seq<GeneratedImageV>,
                Seq<char>,
            >(message@),
        },
{
    match decoded {
        Decoded::Value(document) => match images_from(document) {
            Some(images) => Ok(images),
            None => Err(owned("Failed to parse Google response: unexpected shape")),
        },
        Decoded::Truncated(words) => Err(
            crate::text::concat2("Failed to parse Google response: ", words.as_str()),
        ),
        Decoded::Malformed(words) => Err(
            crate::text::concat2("Failed to parse Google response: ", words.as_str()),
        ),
    }
}

/// The client for Google's image models.
pub struct GoogleImageClient {
    base_url: String,
}

impl GoogleImageClient {
    /// The address of the service that this client speaks to.
    pub closed spec fn base(&self) -> Seq<char> {
        self.base_url@
    }

    /// A client for Google's own service.
    pub fn new() -> (client: Self)
        ensures
            client.base() == default_base_url(),
    {
        Self { base_url: owned("https://generativelanguage.googleapis.com/v1beta") }
    }

    /// A client for the service at `base_url`.
    pub fn with_base_url(base_url: String) -> (client: Self)
        ensures
            client.base() == base_url@,
    {
        Self { base_url }
    }

    /// The address of the service that this client speaks to.
    pub fn base_url(&self) -> (url: &str)
        ensures
            url@ == self.base(),
    {
        self.base_url.as_str()
    }

    /// Builds the address that a request for `model` goes to.
    pub fn endpoint(&self, model: &str, api_key: &str) -> (url: String)
        ensures
            url@ == spec_endpoint(self.base(), model@, api_key@),
    {
        let mut url = trim_end_matches(self.base_url.as_str(), '/');
        url.append("/models/");
        url.append(model);
        url.append(":generateContent?key=");
        url.append(api_key);
        url
    }

    /// Builds the body of a request.
    pub fn request_body(request: &ImageGenerationRequest) -> (body: Json)
        ensures
            body@ == spec_request_body(request.prompt@),
    {
        let part = object2("type", Json::Str(owned("text")), "text", Json::Str(request.prompt.clone()));
        let content = object1("parts", array1(part));
        object1("contents", array1(content))
    }

    /// The failure reported when no key is held for Google.
    pub fn missing_key_message() -> (message: String)
        ensures
            message@
                == "Google API key not configured for image generation / Google 图片生成未配置 API 密钥"@,
    {
        owned("Google API key not configured for image generation / Google 图片生成未配置 API 密钥")
    }

    /// The failure reported when the service answers with `status`.
    pub fn failure_message(status: u16, body: &str) -> (message: String)
        requires
            spec_is_status(status),
        ensures
            message@ == spec_failure_message(
                "Google image generation failed"@,
                status,
                body@,
                " / Google 图片生成失败"@,
            ),
    {
        failure_message("Google image generation failed", status, body, " / Google 图片生成失败")
    }

    /// Reads the images out of the text of an answer.
    pub fn parse_response(text: &str) -> (result: Result<Vec<GeneratedImage>, String>)
        ensures
            match result {
                Ok(images) => spec_parse_response(json_decoding(text@)) == Ok::<
                    Seq<GeneratedImageV>,
                    Seq<char>,
                >(images_view(images@)),
                Err(message) => spec_parse_response(json_decoding(text@)) == Err::<
                    Seq<GeneratedImageV>,
                    Seq<char>,
                >(message@),
            },
    {
        let decoded = decode(text);
        images_from_decoded(&decoded)
    }
}

} // verus!
