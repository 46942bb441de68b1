//! The image service: which model serves a request, which provider serves
//! the model, and which client speaks to that provider.

use vstd::prelude::*;
use crate::image_generation::types::{
    GeneratedImage, ImageGenerationRequest, ImageGenerationResponse,
};
use crate::model_resolver::{default_identifier, spec_default_identifier, FeatureDefaults};
use crate::models::{
    spec_candidates, spec_provider_model_name, Capability, ModelConfigV, ModelRegistry,
    ModelsConfiguration,
};
use crate::providers::{find_provider, ApiKeyMap, ProviderRegistry};
use crate::text::{blank, concat2, is_blank, opt_view, owned, str_eq};
use crate::types::{ProviderConfig, ProviderConfigV};

verus! {

/// The clients that the service can hand a request to.
#[derive(Debug, Clone, Copy, PartialEq, Eq, Structural)]
pub enum ImageClientKind {
    OpenAi,
    AiGateway,
    Google,
    Volcengine,
    Zhipu,
    Alibaba,
}

/// Which clients a build of the service carries.
#[derive(Debug, Clone, Copy, PartialEq, Eq, Structural)]
pub enum ClientSet {
    /// Every client, and a model is chosen when the request names none.
    Full,
    /// The OpenAI, AI gateway and Google clients; the request names its model.
    Desktop,
}

/// What the service has decided for one request.
#[derive(Debug, PartialEq)]
pub struct ImagePlan {
    pub kind: ImageClientKind,
    pub provider: ProviderConfig,
    pub provider_id: String,
    pub model_name: String,
}

/// The content of a plan.
pub ghost struct ImagePlanV {
    pub kind: ImageClientKind,
    pub provider: ProviderConfigV,
    pub provider_id: Seq<char>,
    pub model_name: Seq<char>,
}

impl View for ImagePlan {
    type V = ImagePlanV;

    open spec fn view(&self) -> ImagePlanV {
        ImagePlanV {
            kind: self.kind,
            provider: self.provider@,
            provider_id: self.provider_id@,
            model_name: self.model_name@,
        }
    }
}

/// The built-in default model for image generation.
pub open spec fn default_image_model() -> Seq<char> {
    "gemini-3-pro-image"@
}

/// The failure reported when no image model can be found.
pub open spec fn no_image_model() -> Seq<char> {
    "No available image generation model found. Please configure an image generator model in settings. / 未找到可用的图片生成模型，请在设置中配置图片生成模型。"@
}

/// The client that serves provider `id`.
pub open spec fn spec_client_kind(id: Seq<char>) -> Option<ImageClientKind> {
    if id == "openai"@ {
        Some(ImageClientKind::OpenAi)
    } else if id == "aiGateway"@ {
        Some(ImageClientKind::AiGateway)
    } else if id == "google"@ {
        Some(ImageClientKind::Google)
    } else if id == "volcengine"@ {
        Some(ImageClientKind::Volcengine)
    } else if id == "zhipu"@ {
        Some(ImageClientKind::Zhipu)
    } else if id == "alibaba"@ {
        Some(ImageClientKind::Alibaba)
    } else {
        None
    }
}

/// Whether a build with `set` carries the client `kind`.
pub open spec fn carries(set: ClientSet, kind: ImageClientKind) -> bool {
    match set {
        ClientSet::Full => true,
        ClientSet::Desktop => kind == ImageClientKind::OpenAi || kind == ImageClientKind::AiGateway
            || kind == ImageClientKind::Google,
    }
}

/// The failure reported for a provider that no carried client serves.
pub open spec fn unsupported_provider(id: Seq<char>) -> Seq<char> {
    "Image generation provider not supported: "@ + id + " / 不支持的图片生成供应商: "@ + id
}

/// The failure reported when the provider of a client is not registered.
pub open spec fn not_configured(kind: ImageClientKind) -> Seq<char> {
    match kind {
        ImageClientKind::OpenAi => "OpenAI provider not configured"@,
        ImageClientKind::AiGateway => "aiGateway provider not configured"@,
        ImageClientKind::Google => "Google provider not configured"@,
        ImageClientKind::Volcengine => "Volcengine provider not configured"@,
        ImageClientKind::Zhipu => "Zhipu AI provider not configured"@,
        ImageClientKind::Alibaba => "Alibaba provider not configured"@,
    }
}

/// The model that serves a request which names none: the configured image
/// model, the built-in default, or the first model of the catalog that
/// makes images, in this order, each only where it has a candidate.
pub open spec fn spec_image_generator_model(
    configured: Option<Seq<char>>,
    registry: Seq<ProviderConfigV>,
    keys: Seq<(Seq<char>, Seq<char>)>,
    models: Seq<ModelConfigV>,
) -> Result<Seq<char>, Seq<char>> {
    match spec_default_identifier(
        configured,
        default_image_model(),
        Capability::ImageOutput,
        registry,
        keys,
        models,
    ) {
        Some(identifier) => Ok(identifier),
        None => Err(no_image_model()),
    }
}

/// The identifier that a request is resolved by.
pub open spec fn spec_request_identifier(
    set: ClientSet,
    requested: Seq<char>,
    configured: Option<Seq<char>>,
    registry: Seq<ProviderConfigV>,
    keys: Seq<(Seq<char>, Seq<char>)>,
    models: Seq<ModelConfigV>,
) -> Result<Seq<char>, Seq<char>> {
    if set == ClientSet::Full && is_blank(requested) {
        spec_image_generator_model(configured, registry, keys, models)
    } else {
        Ok(requested)
    }
}

/// What the service decides for a request, or the failure it reports.
pub open spec fn spec_plan(
    set: ClientSet,
    requested: Seq<char>,
    configured: Option<Seq<char>>,
    registry: Seq<ProviderConfigV>,
    keys: Seq<(Seq<char>, Seq<char>)>,
    models: Seq<ModelConfigV>,
) -> Result<ImagePlanV, Seq<char>> {
    match spec_request_identifier(set, requested, configured, registry, keys, models) {
        Err(message) => Err(message),
        Ok(identifier) => match spec_candidates(identifier, registry, keys, models) {
            Err(e) => Err(e.message),
            Ok(list) => {
                let first = list[0];
                match spec_client_kind(first.provider_id) {
                    Some(kind) => if carries(set, kind) {
                        match find_provider(registry, first.provider_id) {
                            Some(provider) => Ok(
                                ImagePlanV {
                                    kind,
                                    provider,
                                    provider_id: first.provider_id,
                                    model_name: spec_provider_model_name(
                                        first.model_key,
                                        first.provider_id,
                                        models,
                                    ),
                                },
                            ),
                            None => Err(not_configured(kind)),
                        }
                    } else {
                        Err(unsupported_provider(first.provider_id))
                    },
                    None => Err(unsupported_provider(first.provider_id)),
                }
            },
        },
    }
}

/// Picks the client that serves provider `id`.
pub fn client_kind(id: &str) -> (kind: Option<ImageClientKind>)
    ensures
        kind == spec_client_kind(id@),
{
    if str_eq(id, "openai") {
        Some(ImageClientKind::OpenAi)
    } else if str_eq(id, "aiGateway") {
        Some(ImageClientKind::AiGateway)
    } else if str_eq(id, "google") {
        Some(ImageClientKind::Google)
    } else if str_eq(id, "volcengine") {
        Some(ImageClientKind::Volcengine)
    } else if str_eq(id, "zhipu") {
        Some(ImageClientKind::Zhipu)
    } else if str_eq(id, "alibaba") {
        Some(ImageClientKind::Alibaba)
    } else {
        None
    }
}

/// Tells whether a build with `set` carries the client `kind`.
pub fn set_carries(set: ClientSet, kind: ImageClientKind) -> (b: bool)
    ensures
        b == carries(set, kind),
{
    match set {
        ClientSet::Full => true,
        ClientSet::Desktop => match kind {
            ImageClientKind::OpenAi => true,
            ImageClientKind::AiGateway => true,
            ImageClientKind::Google => true,
            _ => false,
        },
    }
}

/// The text of the failure reported when the provider of a client is not
/// registered.
fn not_configured_message(kind: ImageClientKind) -> (message: String)
    ensures
        message@ == not_configured(kind),
{
    match kind {
        ImageClientKind::OpenAi => owned("OpenAI provider not configured"),
        ImageClientKind::AiGateway => owned("aiGateway provider not configured"),
        ImageClientKind::Google => owned("Google provider not configured"),
        ImageClientKind::Volcengine => owned("Volcengine provider not configured"),
        ImageClientKind::Zhipu => owned("Zhipu AI provider not configured"),
        ImageClientKind::Alibaba => owned("Alibaba provider not configured"),
    }
}

/// The text of the failure reported for a provider that no client serves.
fn unsupported_message(id: &str) -> (message: String)
    ensures
        message@ == unsupported_provider(id@),
{
    let mut out = concat2("Image generation provider not supported: ", id);
    out.append(" / 不支持的图片生成供应商: ");
    out.append(id);
    out
}

/// The image service.
pub struct ImageGenerationService;

impl ImageGenerationService {
    /// Chooses the model for a request that names none. `configured` is the
    /// image model of the settings, where one is set.
    pub fn resolve_image_generator_model(
        configured: Option<String>,
        registry: &ProviderRegistry,
        models: &ModelsConfiguration,
        keys: &ApiKeyMap,
    ) -> (result: Result<String, String>)
        ensures
            match result {
                Ok(identifier) => spec_image_generator_model(
                    opt_view(configured),
                    registry@,
                    keys@,
                    models@,
                ) == Ok::<Seq<char>, Seq<char>>(identifier@),
                Err(message) => spec_image_generator_model(
                    opt_view(configured),
                    registry@,
                    keys@,
                    models@,
                ) == Err::<Seq<char>, Seq<char>>(message@),
            },
    {
        let defaults = FeatureDefaults {
            configured,
            builtin: owned("gemini-3-pro-image"),
            capability: Capability::ImageOutput,
        };
        match default_identifier(&defaults, keys, registry, models) {
            Some(identifier) => Ok(identifier),
            None => Err(
                owned(
                    "No available image generation model found. Please configure an image generator model in settings. / 未找到可用的图片生成模型，请在设置中配置图片生成模型。",
                ),
            ),
        }
    }

    /// Decides, for a request, the provider, the client and the name under
    /// which the provider knows the model.
    pub fn plan(
        set: ClientSet,
        request: &ImageGenerationRequest,
        configured: Option<String>,
        registry: &ProviderRegistry,
        models: &ModelsConfiguration,
        keys: &ApiKeyMap,
    ) -> (result: Result<ImagePlan, String>)
        ensures
            match result {
                Ok(plan) => spec_plan(
                    set,
                    request.model@,
                    opt_view(configured),
                    registry@,
                    keys@,
                    models@,
                ) == Ok::<ImagePlanV, Seq<char>>(plan@),
                Err(message) => spec_plan(
                    set,
                    request.model@,
                    opt_view(configured),
                    registry@,
                    keys@,
                    models@,
                ) == Err::<ImagePlanV, Seq<char>>(message@),
            },
    {
        let automatic = match set {
            ClientSet::Full => blank(request.model.as_str()),
            ClientSet::Desktop => false,
        };
        let identifier = if automatic {
            match Self::resolve_image_generator_model(configured, registry, models, keys) {
                Ok(identifier) => identifier,
                Err(message) => {
                    return Err(message);
                },
            }
        } else {
            request.model.clone()
        };
        let (model_key, provider_id) = match ModelRegistry::get_model_provider(
            identifier.as_str(),
            keys,
            registry,
            models,
        ) {
            Ok(pair) => pair,
            Err(e) => {
                return Err(e.message);
            },
        };
        let model_name = ModelRegistry::resolve_provider_model_name(
            model_key.as_str(),
            provider_id.as_str(),
            models,
        );
        let kind = match client_kind(provider_id.as_str()) {
            Some(kind) => kind,
            None => {
                return Err(unsupported_message(provider_id.as_str()));
            },
        };
        if !set_carries(set, kind) {
            return Err(unsupported_message(provider_id.as_str()));
        }
        match registry.provider(provider_id.as_str()) {
            Some(provider) => Ok(
                ImagePlan { kind, provider: provider.duplicate(), provider_id, model_name },
            ),
            None => Err(not_configured_message(kind)),
        }
    }

    /// The answer of the service: the images and the provider that made them.
    pub fn respond(provider_id: String, images: Vec<GeneratedImage>) -> (response:
        ImageGenerationResponse)
        ensures
            response.provider@ == provider_id@,
            response.images == images,
            response.request_id is None,
    {
        ImageGenerationResponse { provider: provider_id, images, request_id: None }
    }
}

} // verus!
