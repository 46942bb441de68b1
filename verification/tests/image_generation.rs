use talkcody_llm::image_generation::aigateway::AIGatewayImageClient;
use talkcody_llm::image_generation::google::GoogleImageClient;
use talkcody_llm::image_generation::openai;
use talkcody_llm::image_generation::openai::OpenAiImageClient;
use talkcody_llm::image_generation::service::{
    ClientSet, ImageClientKind, ImageGenerationService,
};
use talkcody_llm::image_generation::types::{GeneratedImage, ImageGenerationRequest};
use talkcody_llm::image_generation::zhipu::ZhipuImageClient;
use talkcody_llm::json::{decode, Decoded, Json};
use talkcody_llm::models::{ModelConfig, ModelProvider, ModelsConfiguration};
use talkcody_llm::providers::{ApiKeyMap, ProviderRegistry};
use talkcody_llm::types::{AuthType, ProtocolType, ProviderConfig};

fn provider(id: &str, base_url: &str) -> ProviderConfig {
    ProviderConfig {
        id: id.to_string(),
        name: id.to_string(),
        protocol: ProtocolType::OpenAiCompatible,
        base_url: base_url.to_string(),
        api_key_name: format!("{}_API_KEY", id),
        supports_oauth: false,
        supports_coding_plan: false,
        supports_international: false,
        coding_plan_base_url: None,
        international_base_url: None,
        headers: None,
        extra_body: None,
        auth_type: AuthType::Bearer,
    }
}

fn model(key: &str, providers: &[&str], image_output: bool) -> ModelConfig {
    ModelConfig {
        key: key.to_string(),
        providers: providers
            .iter()
            .map(|p| ModelProvider { provider_id: p.to_string(), model_name: None })
            .collect(),
        image_input: false,
        image_output,
    }
}

fn keys(ids: &[&str]) -> ApiKeyMap {
    ApiKeyMap { entries: ids.iter().map(|i| (i.to_string(), "secret".to_string())).collect() }
}

fn request(model: &str) -> ImageGenerationRequest {
    ImageGenerationRequest {
        model: model.to_string(),
        prompt: "a cat".to_string(),
        size: None,
        quality: None,
        n: None,
        response_format: None,
    }
}

#[test]
fn parses_zhipu_image_response_with_b64() {
    let json = r#"{"data":[{"b64_json":"base64data","revised_prompt":"refined"}]}"#;
    let parsed = ZhipuImageClient::parse_response(json).expect("parse response");
    assert_eq!(parsed.len(), 1);
    assert_eq!(parsed[0].b64_json.as_deref(), Some("base64data"));
    assert_eq!(parsed[0].revised_prompt.as_deref(), Some("refined"));
}

#[test]
fn parses_zhipu_image_response_with_url() {
    let json =
        r#"{"data":[{"url":"https://example.com/glm-image.png","revised_prompt":"test"}]}"#;
    let parsed = ZhipuImageClient::parse_response(json).expect("parse response");
    assert_eq!(parsed.len(), 1);
    assert_eq!(parsed[0].url.as_deref(), Some("https://example.com/glm-image.png"));
    assert_eq!(parsed[0].revised_prompt.as_deref(), Some("test"));
}

#[test]
fn parses_zhipu_image_response_with_both() {
    let json = r#"{"data":[{"b64_json":"base64","url":"https://example.com/img.png","revised_prompt":"both"}]}"#;
    let parsed = ZhipuImageClient::parse_response(json).expect("parse response");
    assert_eq!(parsed.len(), 1);
    assert_eq!(parsed[0].b64_json.as_deref(), Some("base64"));
    assert_eq!(parsed[0].url.as_deref(), Some("https://example.com/img.png"));
}

#[test]
fn zhipu_image_client_constructs() {
    let config = ProviderConfig {
        id: "zhipu".to_string(),
        name: "Zhipu AI".to_string(),
        protocol: ProtocolType::OpenAiCompatible,
        base_url: "https://open.bigmodel.cn/api/paas/v4".to_string(),
        api_key_name: "ZHIPU_API_KEY".to_string(),
        supports_oauth: false,
        supports_coding_plan: false,
        supports_international: false,
        coding_plan_base_url: None,
        international_base_url: None,
        headers: None,
        extra_body: None,
        auth_type: AuthType::Bearer,
    };
    let _client = ZhipuImageClient::new(config);
}

#[test]
fn parses_gemini_image_response() {
    let json = r#"{"candidates":[{"content":{"parts":[{"inline_data":{"mime_type":"image/png","data":"abc"}}]}}]}"#;
    let parsed = GoogleImageClient::parse_response(json).expect("parse response");
    assert_eq!(parsed.len(), 1);
    assert_eq!(parsed[0].mime_type, "image/png");
    assert_eq!(parsed[0].b64_json.as_deref(), Some("abc"));
}

#[test]
fn parses_openai_image_response_with_b64() {
    let json = r#"{"data":[{"b64_json":"abc","revised_prompt":"hi"}]}"#;
    let parsed = OpenAiImageClient::parse_response(json).expect("parse response");
    assert_eq!(parsed.len(), 1);
    assert_eq!(parsed[0].b64_json.as_deref(), Some("abc"));
    assert_eq!(parsed[0].revised_prompt.as_deref(), Some("hi"));
}

#[test]
fn parses_openai_image_response_with_url() {
    let json = r#"{"data":[{"url":"https://example.com/image.png"}]}"#;
    let parsed = OpenAiImageClient::parse_response(json).expect("parse response");
    assert_eq!(parsed.len(), 1);
    assert_eq!(parsed[0].url.as_deref(), Some("https://example.com/image.png"));
}

#[test]
fn openai_image_response_parses_b64_json() {
    let parsed = match decode(r#"{"data":[{"b64_json":"abc","revised_prompt":"refined"}]}"#) {
        Decoded::Value(v) => v,
        _ => panic!("expected a value"),
    };
    let first = parsed.get("data").and_then(|v| v.at(0)).unwrap();
    assert_eq!(first.get("b64_json").and_then(|v| v.as_str()), Some("abc"));
    assert_eq!(first.get("revised_prompt").and_then(|v| v.as_str()), Some("refined"));
}

#[test]
fn openai_image_response_parses_url() {
    let parsed = match decode(r#"{"data":[{"url":"https://example.com/image.png"}]}"#) {
        Decoded::Value(v) => v,
        _ => panic!("expected a value"),
    };
    let first = parsed.get("data").and_then(|v| v.at(0)).unwrap();
    assert_eq!(first.get("url").and_then(|v| v.as_str()), Some("https://example.com/image.png"));
}

#[test]
fn openai_image_client_constructs() {
    let config = ProviderConfig {
        id: "openai".to_string(),
        name: "OpenAI".to_string(),
        protocol: ProtocolType::OpenAiCompatible,
        base_url: "https://api.openai.com/v1".to_string(),
        api_key_name: "OPENAI_API_KEY".to_string(),
        supports_oauth: true,
        supports_coding_plan: false,
        supports_international: false,
        coding_plan_base_url: None,
        international_base_url: None,
        headers: None,
        extra_body: None,
        auth_type: AuthType::Bearer,
    };
    let _client = OpenAiImageClient::new(config);
    let _image: GeneratedImage = GeneratedImage {
        b64_json: None,
        url: None,
        mime_type: "image/png".to_string(),
        revised_prompt: None,
    };
}

#[test]
fn image_clients_keep_their_provider() {
    let client = OpenAiImageClient::new(provider("openai", "https://api.openai.com/v1"));
    assert_eq!(client.config().id, "openai");
    let gateway = AIGatewayImageClient::new(provider("aiGateway", "https://gw.example/v1/"));
    assert_eq!(gateway.inner().config().base_url, "https://gw.example/v1/");
    let zhipu = ZhipuImageClient::new(provider("zhipu", "https://open.bigmodel.cn/api/paas/v4"));
    assert_eq!(zhipu.config().id, "zhipu");
    assert_eq!(
        GoogleImageClient::new().base_url(),
        "https://generativelanguage.googleapis.com/v1beta"
    );
    assert_eq!(GoogleImageClient::with_base_url("http://g/".to_string()).base_url(), "http://g/");
}

#[test]
fn openai_image_request_is_formed_as_documented() {
    assert_eq!(openai::endpoint("https://api.openai.com/v1//"), "https://api.openai.com/v1/images/generations");
    assert_eq!(openai::endpoint("x"), "x/images/generations");
    let mut r = request("ignored");
    r.size = Some("1024x1024".to_string());
    r.n = Some(2);
    let body = openai::request_body("gpt-image-1", &r);
    match &body {
        Json::Object(members) => {
            let keys: Vec<&str> = members.iter().map(|m| m.key.as_str()).collect();
            assert_eq!(keys, vec!["model", "prompt", "size", "n"]);
        }
        _ => panic!("expected an object"),
    }
    assert_eq!(body.get("model").and_then(|v| v.as_str()), Some("gpt-image-1"));
    assert_eq!(body.get("prompt").and_then(|v| v.as_str()), Some("a cat"));
    assert_eq!(body.get("n").and_then(|v| v.as_i64()), Some(2));
    assert!(body.get("quality").is_none());
    assert_eq!(
        openai::headers("k"),
        vec![
            ("Content-Type".to_string(), "application/json".to_string()),
            ("Authorization".to_string(), "Bearer k".to_string()),
        ]
    );
}

#[test]
fn image_failure_messages_show_the_status() {
    assert_eq!(
        OpenAiImageClient::failure_message(404, "nope"),
        "OpenAI image generation failed (404 Not Found): nope / OpenAI 图片生成失败"
    );
    assert_eq!(
        ZhipuImageClient::failure_message(500, ""),
        "Zhipu AI image generation failed (500 Internal Server Error):  / 智谱 AI 图片生成失败"
    );
    assert_eq!(
        GoogleImageClient::failure_message(429, "slow"),
        "Google image generation failed (429 Too Many Requests): slow / Google 图片生成失败"
    );
    assert_eq!(
        OpenAiImageClient::missing_key_message(),
        "API key not configured for OpenAI image generation / OpenAI 图片生成未配置 API 密钥"
    );
}

#[test]
fn image_answers_of_the_wrong_shape_are_reported() {
    assert_eq!(
        OpenAiImageClient::parse_response("{\"data\": 3}"),
        Err("Failed to parse OpenAI response: unexpected shape".to_string())
    );
    assert_eq!(
        OpenAiImageClient::parse_response("{\"data\": [{\"url\": 3}]}"),
        Err("Failed to parse OpenAI response: unexpected shape".to_string())
    );
    assert_eq!(
        ZhipuImageClient::parse_response("{\"data\": "),
        Err("Failed to parse Zhipu AI response: EOF while parsing a value at line 1 column 9".to_string())
    );
    assert_eq!(
        GoogleImageClient::parse_response("nope"),
        Err("Failed to parse Google response: expected ident at line 1 column 2".to_string())
    );
    assert_eq!(
        GoogleImageClient::parse_response("{\"candidates\":[{\"content\":{\"parts\":[{\"other\":1}]}}]}"),
        Err("Failed to parse Google response: unexpected shape".to_string())
    );
    assert_eq!(OpenAiImageClient::parse_response("{\"data\": [{\"url\": null}]}").unwrap()[0].url, None);
}

#[test]
fn google_image_request_is_formed_as_documented() {
    let client = GoogleImageClient::with_base_url("https://g.example/v1beta/".to_string());
    assert_eq!(
        client.endpoint("gemini-3-pro-image", "KEY"),
        "https://g.example/v1beta/models/gemini-3-pro-image:generateContent?key=KEY"
    );
    let body = GoogleImageClient::request_body(&request("m"));
    let part = body
        .get("contents")
        .and_then(|c| c.at(0))
        .and_then(|c| c.get("parts"))
        .and_then(|p| p.at(0))
        .unwrap();
    assert_eq!(part.get("type").and_then(|v| v.as_str()), Some("text"));
    assert_eq!(part.get("text").and_then(|v| v.as_str()), Some("a cat"));
    let answer = r#"{"candidates":[{"content":{"parts":[{"text":"here"},{"inline_data":{"mime_type":"image/jpeg","data":"x"}}]}},{"content":{"parts":[{"inline_data":{"mime_type":"image/png","data":"y"}}]}}]}"#;
    let images = GoogleImageClient::parse_response(answer).unwrap();
    assert_eq!(images.len(), 2);
    assert_eq!(images[0].mime_type, "image/jpeg");
    assert_eq!(images[1].b64_json.as_deref(), Some("y"));
    assert!(images[0].url.is_none() && images[0].revised_prompt.is_none());
}

#[test]
fn image_plan_picks_the_client_of_the_provider() {
    let registry = ProviderRegistry::new(vec![
        provider("openai", "https://api.openai.com/v1"),
        provider("zhipu", "https://open.bigmodel.cn/api/paas/v4"),
        provider("other", "https://other.example"),
    ]);
    let models = ModelsConfiguration {
        models: vec![
            model("gpt-image-1", &["openai"], true),
            model("glm-image", &["zhipu"], true),
            model("odd", &["other"], true),
        ],
    };
    let keys = keys(&["openai", "zhipu", "other"]);
    let plan = ImageGenerationService::plan(ClientSet::Full, &request("gpt-image-1"), None, &registry, &models, &keys).unwrap();
    assert_eq!(plan.kind, ImageClientKind::OpenAi);
    assert_eq!(plan.provider_id, "openai");
    assert_eq!(plan.model_name, "gpt-image-1");
    assert_eq!(plan.provider.base_url, "https://api.openai.com/v1");
    let plan = ImageGenerationService::plan(ClientSet::Full, &request("glm-image"), None, &registry, &models, &keys).unwrap();
    assert_eq!(plan.kind, ImageClientKind::Zhipu);
    assert_eq!(
        ImageGenerationService::plan(ClientSet::Desktop, &request("glm-image"), None, &registry, &models, &keys),
        Err("Image generation provider not supported: zhipu / 不支持的图片生成供应商: zhipu".to_string())
    );
    assert_eq!(
        ImageGenerationService::plan(ClientSet::Full, &request("odd"), None, &registry, &models, &keys),
        Err("Image generation provider not supported: other / 不支持的图片生成供应商: other".to_string())
    );
    let response = ImageGenerationService::respond("openai".to_string(), vec![]);
    assert_eq!(response.provider, "openai");
    assert!(response.images.is_empty() && response.request_id.is_none());
}

#[test]
fn image_model_is_chosen_in_three_tiers() {
    let registry = ProviderRegistry::new(vec![
        provider("google", "https://g.example"),
        provider("openai", "https://api.openai.com/v1"),
    ]);
    let models = ModelsConfiguration {
        models: vec![
            model("gpt-4o", &["openai"], false),
            model("gemini-3-pro-image", &["google"], true),
            model("gpt-image-1", &["openai"], true),
        ],
    };
    let both = keys(&["google", "openai"]);
    let only_openai = keys(&["openai"]);
    // the configured model wins, trimmed
    assert_eq!(
        ImageGenerationService::resolve_image_generator_model(Some(" gpt-image-1 ".to_string()), &registry, &models, &both),
        Ok("gpt-image-1".to_string())
    );
    // a configured model without a usable provider falls to the default
    assert_eq!(
        ImageGenerationService::resolve_image_generator_model(Some("missing".to_string()), &registry, &models, &both),
        Ok("gemini-3-pro-image".to_string())
    );
    assert_eq!(
        ImageGenerationService::resolve_image_generator_model(Some("  ".to_string()), &registry, &models, &both),
        Ok("gemini-3-pro-image".to_string())
    );
    // without the default, the first model of the catalog that makes images
    assert_eq!(
        ImageGenerationService::resolve_image_generator_model(None, &registry, &models, &only_openai),
        Ok("gpt-image-1@openai".to_string())
    );
    assert_eq!(
        ImageGenerationService::resolve_image_generator_model(None, &registry, &models, &keys(&[])),
        Err("No available image generation model found. Please configure an image generator model in settings. / 未找到可用的图片生成模型，请在设置中配置图片生成模型。".to_string())
    );
    // a request that names no model is served by the chosen one
    let plan = ImageGenerationService::plan(ClientSet::Full, &request("  "), None, &registry, &models, &only_openai).unwrap();
    assert_eq!(plan.provider_id, "openai");
    assert_eq!(plan.model_name, "gpt-image-1");
}
