use talkcody_llm::json::{Json, Member};
use talkcody_llm::model_resolver::{
    resolve, resolve_model_identifier, FallbackStrategy, FeatureDefaults,
};
use talkcody_llm::models::{
    Capability, ModelConfig, ModelProvider, ModelRegistry, ModelsConfiguration,
};
use talkcody_llm::protocols::request_builder::{build_request, is_rejected};
use talkcody_llm::protocols::stream_parser::{parse, StreamFrame, StreamParseState};
use talkcody_llm::providers::{is_usable, ApiKeyMap, ProviderRegistry};
use talkcody_llm::stream_collector::{
    collect_with_runner, CollectedText, StreamCollector, TimedEvent,
};
use talkcody_llm::stream_runner::{
    replay, AttemptPlan, Phase, RunnerAction, StreamRun, StreamRunner, TransportEvent,
};
use talkcody_llm::types::{
    AuthType, CanonicalEvent, ContentPart, ErrorKind, Message, MessageContent, ProtocolType,
    ProviderConfig, StreamTextRequest, ToolDefinition, Usage,
};

fn provider(id: &str, protocol: ProtocolType, auth_type: AuthType) -> ProviderConfig {
    ProviderConfig {
        id: id.to_string(),
        name: id.to_string(),
        protocol,
        base_url: format!("https://{}.example/v1", id),
        api_key_name: format!("{}_API_KEY", id),
        supports_oauth: false,
        supports_coding_plan: false,
        supports_international: false,
        coding_plan_base_url: None,
        international_base_url: None,
        headers: None,
        extra_body: None,
        auth_type,
    }
}

fn registry() -> ProviderRegistry {
    ProviderRegistry::new(vec![
        provider("openai", ProtocolType::OpenAiCompatible, AuthType::Bearer),
        provider("aiGateway", ProtocolType::OpenAiCompatible, AuthType::Bearer),
        provider("google", ProtocolType::Google, AuthType::Bearer),
        provider("anthropic", ProtocolType::Anthropic, AuthType::ApiKey),
        provider("zhipu", ProtocolType::OpenAiCompatible, AuthType::Bearer),
        provider("local", ProtocolType::OpenAiCompatible, AuthType::NoAuth),
    ])
}

fn entry(provider_id: &str, model_name: Option<&str>) -> ModelProvider {
    ModelProvider {
        provider_id: provider_id.to_string(),
        model_name: model_name.map(|n| n.to_string()),
    }
}

fn catalog() -> ModelsConfiguration {
    ModelsConfiguration {
        models: vec![
            ModelConfig {
                key: "gpt-4o".to_string(),
                providers: vec![entry("openai", None), entry("aiGateway", Some("openai/gpt-4o"))],
                image_input: true,
                image_output: false,
            },
            ModelConfig {
                key: "gemini-2.5-flash-lite".to_string(),
                providers: vec![
                    entry("google", Some("google/gemini-2.5-flash-lite")),
                    entry("aiGateway", None),
                ],
                image_input: false,
                image_output: false,
            },
            ModelConfig {
                key: "sonnet-large".to_string(),
                providers: vec![entry("anthropic", None)],
                image_input: false,
                image_output: false,
            },
            ModelConfig {
                key: "glm-4.7".to_string(),
                providers: vec![entry("zhipu", None), entry("unregistered", None)],
                image_input: false,
                image_output: false,
            },
        ],
    }
}

fn keys(ids: &[&str]) -> ApiKeyMap {
    ApiKeyMap { entries: ids.iter().map(|i| (i.to_string(), "secret".to_string())).collect() }
}

fn defaults() -> FeatureDefaults {
    FeatureDefaults {
        configured: None,
        builtin: "gemini-2.5-flash-lite".to_string(),
        capability: Capability::Text,
    }
}

fn user(text: &str) -> Message {
    Message::User { content: MessageContent::Text(text.to_string()), provider_options: None }
}

fn request(model: &str, messages: Vec<Message>) -> StreamTextRequest {
    StreamTextRequest {
        model: model.to_string(),
        messages,
        tools: None,
        stream: Some(true),
        temperature: None,
        max_tokens: None,
        top_p: None,
        top_k: None,
        provider_options: None,
        request_id: None,
        trace_context: None,
    }
}

fn text(s: &str) -> Json {
    Json::Str(s.to_string())
}

fn object(members: Vec<(&str, Json)>) -> Json {
    Json::Object(members.into_iter().map(|(k, v)| Member { key: k.to_string(), value: v }).collect())
}

fn frame(data: &str) -> StreamFrame {
    StreamFrame { event_type: None, data: data.to_string() }
}

fn typed(event_type: &str, data: &str) -> StreamFrame {
    StreamFrame { event_type: Some(event_type.to_string()), data: data.to_string() }
}

fn plan(provider_id: &str, protocol: ProtocolType) -> AttemptPlan {
    AttemptPlan {
        provider_id: provider_id.to_string(),
        model_name: "m".to_string(),
        protocol,
        request: object(vec![("model", text("m"))]),
    }
}

fn ok_stream() -> Vec<TransportEvent> {
    vec![
        TransportEvent::Connected,
        TransportEvent::Frame(frame(r#"{"choices":[{"delta":{"content":"Hel"}}]}"#)),
        TransportEvent::Frame(frame(
            r#"{"choices":[{"delta":{"content":"lo"},"finish_reason":"stop"}]}"#,
        )),
        TransportEvent::Frame(frame("[DONE]")),
    ]
}

fn timed(events: Vec<TransportEvent>, step_ms: u64) -> Vec<TimedEvent> {
    events
        .into_iter()
        .enumerate()
        .map(|(i, event)| TimedEvent { elapsed_ms: (i as u64 + 1) * step_ms, event })
        .collect()
}

// ---- resolution

#[test]
fn bare_key_gives_every_usable_provider_in_catalog_order() {
    let list = ModelRegistry::candidates("gpt-4o", &keys(&["aiGateway", "openai"]), &registry(), &catalog()).unwrap();
    let ids: Vec<&str> = list.iter().map(|c| c.provider_id.as_str()).collect();
    assert_eq!(ids, vec!["openai", "aiGateway"]);
    assert_eq!(list[0].model_name, "gpt-4o");
    assert_eq!(list[1].model_name, "openai/gpt-4o");
    assert_eq!(list[1].model_key, "gpt-4o");
    let list = ModelRegistry::candidates("gpt-4o", &keys(&["aiGateway"]), &registry(), &catalog()).unwrap();
    assert_eq!(list.len(), 1);
    assert_eq!(list[0].provider_id, "aiGateway");
    // a provider that is not registered is never a candidate
    let list = ModelRegistry::candidates("glm-4.7", &keys(&["zhipu", "unregistered"]), &registry(), &catalog()).unwrap();
    assert_eq!(list.len(), 1);
}

#[test]
fn resolution_failures_are_typed() {
    let r = registry();
    let c = catalog();
    let e = ModelRegistry::candidates("gpt-4o", &keys(&[]), &r, &c).unwrap_err();
    assert_eq!((e.kind, e.message.as_str()), (ErrorKind::Configuration, "No available provider for model: gpt-4o"));
    let e = ModelRegistry::candidates("nope", &keys(&["openai"]), &r, &c).unwrap_err();
    assert_eq!((e.kind, e.message.as_str()), (ErrorKind::Configuration, "Model not found: nope"));
    let e = ModelRegistry::candidates("gpt-4o@nowhere", &keys(&["openai"]), &r, &c).unwrap_err();
    assert_eq!((e.kind, e.message.as_str()), (ErrorKind::Configuration, "Provider not registered: nowhere"));
    let e = ModelRegistry::candidates("gpt-4o@google", &keys(&["google"]), &r, &c).unwrap_err();
    assert_eq!((e.kind, e.message.as_str()), (ErrorKind::Configuration, "gpt-4o is not served by provider google"));
    let e = ModelRegistry::candidates("gpt-4o@openai", &keys(&["google"]), &r, &c).unwrap_err();
    assert_eq!((e.kind, e.message.as_str()), (ErrorKind::Credential, "No credentials for provider: openai"));
    let e = ModelRegistry::candidates("nope@openai", &keys(&["openai"]), &r, &c).unwrap_err();
    assert_eq!(e.kind, ErrorKind::Configuration);
}

#[test]
fn pinned_identifier_gives_one_candidate() {
    let list = ModelRegistry::candidates("gpt-4o@aiGateway", &keys(&["aiGateway", "openai"]), &registry(), &catalog()).unwrap();
    assert_eq!(list.len(), 1);
    assert_eq!(list[0].provider_id, "aiGateway");
    assert_eq!(list[0].model_name, "openai/gpt-4o");
    assert_eq!(
        ModelRegistry::get_model_provider("gpt-4o", &keys(&["openai"]), &registry(), &catalog()).unwrap(),
        ("gpt-4o".to_string(), "openai".to_string())
    );
    assert_eq!(ModelRegistry::resolve_provider_model_name("gpt-4o", "aiGateway", &catalog()), "openai/gpt-4o");
    assert_eq!(ModelRegistry::resolve_provider_model_name("gpt-4o", "openai", &catalog()), "gpt-4o");
    assert_eq!(ModelRegistry::resolve_provider_model_name("x", "openai", &catalog()), "x");
}

#[test]
fn provider_without_secret_is_usable_only_where_none_is_needed() {
    let r = registry();
    assert!(is_usable(&r, &keys(&[]), "local"));
    assert!(!is_usable(&r, &keys(&[]), "openai"));
    assert!(is_usable(&r, &keys(&["openai"]), "openai"));
    assert!(!is_usable(&r, &keys(&["ghost"]), "ghost"));
    let blank = ApiKeyMap { entries: vec![("openai".to_string(), "  ".to_string())] };
    assert!(!is_usable(&r, &blank, "openai"));
}

#[test]
fn strategy_decides_how_many_candidates_are_tried() {
    let all = resolve(Some("gpt-4o".to_string()), FallbackStrategy::AnyAvailable, &defaults(), &keys(&["openai", "aiGateway"]), &registry(), &catalog()).unwrap();
    assert_eq!(all.len(), 2);
    let one = resolve(Some("gpt-4o".to_string()), FallbackStrategy::NoFallback, &defaults(), &keys(&["openai", "aiGateway"]), &registry(), &catalog()).unwrap();
    assert_eq!(one.len(), 1);
    assert_eq!(one[0].provider_id, "openai");
}

#[test]
fn absent_identifier_falls_back_in_three_tiers() {
    let r = registry();
    let c = catalog();
    let mut d = defaults();
    d.configured = Some(" sonnet-large ".to_string());
    // tier one: the configured model
    assert_eq!(
        resolve_model_identifier(None, &d, &keys(&["anthropic", "google"]), &r, &c).unwrap(),
        "sonnet-large"
    );
    // a blank request counts as none
    assert_eq!(
        resolve_model_identifier(Some("  ".to_string()), &d, &keys(&["anthropic", "google"]), &r, &c).unwrap(),
        "sonnet-large"
    );
    // tier two: the built-in default, where the configured model has no candidate
    assert_eq!(resolve_model_identifier(None, &d, &keys(&["google"]), &r, &c).unwrap(), "gemini-2.5-flash-lite");
    // tier three: the first model of the catalog with a candidate
    assert_eq!(resolve_model_identifier(None, &d, &keys(&["zhipu"]), &r, &c).unwrap(), "glm-4.7@zhipu");
    assert_eq!(resolve_model_identifier(None, &d, &keys(&["openai", "zhipu"]), &r, &c).unwrap(), "gpt-4o@openai");
    let e = resolve_model_identifier(None, &d, &keys(&[]), &r, &c).unwrap_err();
    assert_eq!((e.kind, e.message.as_str()), (ErrorKind::Configuration, "No model requested and no default model is available"));
    // what was asked for is never replaced by a default
    let e = resolve_model_identifier(Some("nope".to_string()), &d, &keys(&["google"]), &r, &c).unwrap_err();
    assert_eq!(e.message, "Model not found: nope");
}

// ---- request building

#[test]
fn google_provider_strips_top_k() {
    let mut r = request("google/gemini-2.5-flash-lite", vec![user("hi")]);
    r.top_k = Some(64);
    let body = build_request(ProtocolType::Google, "google/gemini-2.5-flash-lite", &r, &None).expect("build request");
    assert!(body.get("top_k").is_none());
}

#[test]
fn non_google_provider_keeps_top_k() {
    let mut r = request("glm-4.7", vec![user("hi")]);
    r.top_k = Some(20);
    let body = build_request(ProtocolType::OpenAiCompatible, "glm-4.7", &r, &None).expect("build request");
    assert_eq!(body.get("top_k").and_then(|value| value.as_i64()), Some(20));
}

#[test]
fn rejected_parameter_is_absent_whoever_asks_for_it() {
    let mut r = request("m", vec![user("hi")]);
    r.temperature = Some(1.0f64.to_bits());
    r.top_k = Some(64);
    r.provider_options = Some(vec![
        Member { key: "top_k".to_string(), value: Json::Int(7) },
        Member { key: "seed".to_string(), value: Json::Int(3) },
    ]);
    let extra = Some(vec![Member { key: "top_k".to_string(), value: Json::Int(9) }]);
    let google = build_request(ProtocolType::Google, "m", &r, &extra).unwrap();
    assert!(google.get("top_k").is_none());
    assert_eq!(google.get("temperature"), Some(&Json::Real(1.0f64.to_bits())));
    assert_eq!(google.get("seed"), Some(&Json::Int(3)));
    // on another family the same inputs keep the member, and the caller's
    // options, merged last, override what stands before them
    let other = build_request(ProtocolType::OpenAiCompatible, "m", &r, &extra).unwrap();
    assert_eq!(other.get("top_k"), Some(&Json::Int(7)));
    r.provider_options = None;
    let other = build_request(ProtocolType::OpenAiCompatible, "m", &r, &None).unwrap();
    assert_eq!(other.get("top_k"), Some(&Json::Int(64)));
    assert!(is_rejected(ProtocolType::Google, "top_k"));
    assert!(!is_rejected(ProtocolType::Google, "top_p"));
    assert!(!is_rejected(ProtocolType::Anthropic, "top_k"));
}

#[test]
fn build_is_the_same_every_time() {
    let mut r = request("m", vec![user("hi"), user("again")]);
    r.top_p = Some(0.9f64.to_bits());
    r.max_tokens = Some(2048);
    let a = build_request(ProtocolType::OpenAiCompatible, "gpt-4o", &r, &None);
    let b = build_request(ProtocolType::OpenAiCompatible, "gpt-4o", &r, &None);
    assert_eq!(a, b);
    assert_eq!(format!("{:?}", a), format!("{:?}", b));
}

#[test]
fn build_rejects_a_request_that_is_not_well_formed() {
    let e = build_request(ProtocolType::OpenAiCompatible, "m", &request("m", vec![]), &None).unwrap_err();
    assert_eq!((e.kind, e.message.as_str()), (ErrorKind::Validation, "Message list is empty"));
    let e = build_request(ProtocolType::Anthropic, "  ", &request("m", vec![user("x")]), &None).unwrap_err();
    assert_eq!((e.kind, e.message.as_str()), (ErrorKind::Validation, "Model name is empty"));
}

#[test]
fn openai_payload_is_laid_out_as_documented() {
    let mut r = request("gpt-4o", vec![
        Message::System { content: MessageContent::Text("be brief".to_string()), provider_options: None },
        Message::User {
            content: MessageContent::Parts(vec![
                ContentPart::Text { text: "look".to_string() },
                ContentPart::Image { url: "https://x/y.png".to_string() },
            ]),
            provider_options: Some(vec![Member { key: "name".to_string(), value: text("ann") }]),
        },
        Message::Tool {
            tool_call_id: "call_1".to_string(),
            content: MessageContent::Text("42".to_string()),
            provider_options: None,
        },
    ]);
    r.stream = None;
    r.tools = Some(vec![ToolDefinition {
        name: "add".to_string(),
        description: "adds".to_string(),
        parameters: object(vec![("type", text("object"))]),
    }]);
    let body = build_request(ProtocolType::OpenAiCompatible, "gpt-4o", &r, &None).unwrap();
    let expected = object(vec![
        ("model", text("gpt-4o")),
        ("messages", Json::Array(vec![
            object(vec![("role", text("system")), ("content", text("be brief"))]),
            object(vec![
                ("role", text("user")),
                ("content", Json::Array(vec![
                    object(vec![("type", text("text")), ("text", text("look"))]),
                    object(vec![
                        ("type", text("image_url")),
                        ("image_url", object(vec![("url", text("https://x/y.png"))])),
                    ]),
                ])),
                ("name", text("ann")),
            ]),
            object(vec![("role", text("tool")), ("tool_call_id", text("call_1")), ("content", text("42"))]),
        ])),
        ("stream", Json::Bool(true)),
        ("tools", Json::Array(vec![object(vec![
            ("type", text("function")),
            ("function", object(vec![
                ("name", text("add")),
                ("description", text("adds")),
                ("parameters", object(vec![("type", text("object"))])),
            ])),
        ])])),
    ]);
    assert_eq!(body, expected);
}

#[test]
fn anthropic_payload_hoists_the_system_messages() {
    let mut r = request("sonnet", vec![
        Message::System { content: MessageContent::Text("be brief".to_string()), provider_options: None },
        user("hi"),
        Message::Assistant { content: MessageContent::Text("hello".to_string()), provider_options: None },
        Message::Tool {
            tool_call_id: "t1".to_string(),
            content: MessageContent::Text("42".to_string()),
            provider_options: None,
        },
    ]);
    r.top_k = Some(5);
    r.tools = Some(vec![ToolDefinition {
        name: "add".to_string(),
        description: "adds".to_string(),
        parameters: Json::Null,
    }]);
    let body = build_request(ProtocolType::Anthropic, "sonnet-large", &r, &None).unwrap();
    let expected = object(vec![
        ("model", text("sonnet-large")),
        ("max_tokens", Json::Int(4096)),
        ("messages", Json::Array(vec![
            object(vec![("role", text("user")), ("content", text("hi"))]),
            object(vec![("role", text("assistant")), ("content", text("hello"))]),
            object(vec![
                ("role", text("user")),
                ("content", Json::Array(vec![object(vec![
                    ("type", text("tool_result")),
                    ("tool_use_id", text("t1")),
                    ("content", text("42")),
                ])])),
            ]),
        ])),
        ("stream", Json::Bool(true)),
        ("system", Json::Array(vec![object(vec![("type", text("text")), ("text", text("be brief"))])])),
        ("tools", Json::Array(vec![object(vec![
            ("name", text("add")),
            ("description", text("adds")),
            ("input_schema", Json::Null),
        ])])),
        ("top_k", Json::Int(5)),
    ]);
    assert_eq!(body, expected);
    r.max_tokens = Some(100);
    let body = build_request(ProtocolType::Anthropic, "sonnet-large", &r, &None).unwrap();
    assert_eq!(body.get("max_tokens"), Some(&Json::Int(100)));
}

// ---- stream parsing

#[test]
fn frames_queue_their_events_in_order_of_arrival() {
    let mut state = StreamParseState::new();
    let a = frame(r#"{"choices":[{"delta":{"content":"A1"},"finish_reason":"length"}]}"#);
    let b = frame(r#"{"choices":[{"delta":{"content":"B1"}}]}"#);
    parse(ProtocolType::OpenAiCompatible, &a, &mut state).unwrap();
    parse(ProtocolType::OpenAiCompatible, &b, &mut state).unwrap();
    assert_eq!(
        state.pending_events,
        vec![
            CanonicalEvent::TextDelta("A1".to_string()),
            CanonicalEvent::FinishReason("length".to_string()),
            CanonicalEvent::TextDelta("B1".to_string()),
        ]
    );
    let drained = state.drain();
    assert_eq!(drained.len(), 3);
    assert!(state.pending_events.is_empty());
}

#[test]
fn openai_chunk_yields_text_tools_finish_and_usage() {
    let mut state = StreamParseState::default();
    let data = r#"{"choices":[{"delta":{"content":"x","tool_calls":[{"index":1,"id":"c1","function":{"name":"add","arguments":"{\"a\""}},{"function":{"arguments":":1}"}}]},"finish_reason":"tool_calls"}],"usage":{"prompt_tokens":3,"completion_tokens":4,"total_tokens":7}}"#;
    parse(ProtocolType::Google, &frame(data), &mut state).unwrap();
    assert_eq!(
        state.pending_events,
        vec![
            CanonicalEvent::TextDelta("x".to_string()),
            CanonicalEvent::ToolCallDelta {
                index: 1,
                id: Some("c1".to_string()),
                name: Some("add".to_string()),
                arguments: "{\"a\"".to_string(),
            },
            CanonicalEvent::ToolCallDelta { index: 0, id: None, name: None, arguments: ":1}".to_string() },
            CanonicalEvent::FinishReason("tool_calls".to_string()),
            CanonicalEvent::Usage(Usage { input_tokens: 3, output_tokens: 4, total_tokens: Some(7) }),
        ]
    );
}

#[test]
fn parser_tolerates_what_it_does_not_know() {
    let p = ProtocolType::OpenAiCompatible;
    let mut state = StreamParseState::new();
    // an unknown event type is ignored, whatever its data
    parse(p, &typed("heartbeat", "not json"), &mut state).unwrap();
    // blank data is ignored
    parse(p, &frame("   "), &mut state).unwrap();
    // a chunk without anything known yields nothing
    parse(p, &frame(r#"{"object":"chat.completion.chunk","choices":[]}"#), &mut state).unwrap();
    parse(p, &frame(r#"{"choices":[{"delta":{"content":""}}]}"#), &mut state).unwrap();
    assert_eq!(state, StreamParseState::new());
    // the terminator sets the marker and queues nothing
    parse(p, &frame(" [DONE] "), &mut state).unwrap();
    assert!(state.finished);
    assert!(state.pending_events.is_empty());
    // after the marker nothing is read
    parse(p, &frame(r#"{"choices":[{"delta":{"content":"late"}}]}"#), &mut state).unwrap();
    assert!(state.pending_events.is_empty());
}

#[test]
fn json_split_across_frames_is_buffered_until_whole() {
    let p = ProtocolType::OpenAiCompatible;
    let mut state = StreamParseState::new();
    parse(p, &frame(r#"{"choices":[{"delta":{"con"#), &mut state).unwrap();
    assert!(state.pending_events.is_empty());
    assert_eq!(state.buffer, r#"{"choices":[{"delta":{"con"#);
    parse(p, &frame(r#"tent":"whole"}}]}"#), &mut state).unwrap();
    assert_eq!(state.pending_events, vec![CanonicalEvent::TextDelta("whole".to_string())]);
    assert_eq!(state.buffer, "");
}

#[test]
fn malformed_payload_is_a_failure_that_keeps_the_queue() {
    let p = ProtocolType::OpenAiCompatible;
    let mut state = StreamParseState::new();
    parse(p, &frame(r#"{"choices":[{"delta":{"content":"kept"}}]}"#), &mut state).unwrap();
    let e = parse(p, &frame("{]"), &mut state).unwrap_err();
    assert_eq!((e.kind, e.message.as_str()), (ErrorKind::Protocol, "Malformed stream payload"));
    assert_eq!(state.pending_events, vec![CanonicalEvent::TextDelta("kept".to_string())]);
    assert_eq!(state.buffer, "");
}

#[test]
fn provider_failure_in_the_stream_is_an_error_event() {
    let mut state = StreamParseState::new();
    parse(ProtocolType::OpenAiCompatible, &frame(r#"{"error":{"message":"overloaded"}}"#), &mut state).unwrap();
    parse(ProtocolType::OpenAiCompatible, &frame(r#"{"error":"plain"}"#), &mut state).unwrap();
    parse(ProtocolType::OpenAiCompatible, &frame(r#"{"error":{"code":1}}"#), &mut state).unwrap();
    parse(ProtocolType::OpenAiCompatible, &frame(r#"{"error":null,"choices":[{"delta":{"content":"ok"}}]}"#), &mut state).unwrap();
    assert_eq!(
        state.pending_events,
        vec![
            CanonicalEvent::Error("overloaded".to_string()),
            CanonicalEvent::Error("plain".to_string()),
            CanonicalEvent::Error("unknown error".to_string()),
            CanonicalEvent::TextDelta("ok".to_string()),
        ]
    );
}

#[test]
fn anthropic_events_are_normalized() {
    let p = ProtocolType::Anthropic;
    let mut state = StreamParseState::new();
    parse(p, &typed("message_start", r#"{"type":"message_start","message":{"usage":{"input_tokens":12,"output_tokens":1}}}"#), &mut state).unwrap();
    parse(p, &typed("ping", r#"{"type":"ping"}"#), &mut state).unwrap();
    parse(p, &typed("content_block_start", r#"{"index":0,"content_block":{"type":"text","text":""}}"#), &mut state).unwrap();
    parse(p, &typed("content_block_delta", r#"{"index":0,"delta":{"type":"text_delta","text":"Hi"}}"#), &mut state).unwrap();
    parse(p, &typed("content_block_start", r#"{"index":1,"content_block":{"type":"tool_use","id":"tu1","name":"add"}}"#), &mut state).unwrap();
    parse(p, &frame(r#"{"type":"content_block_delta","index":1,"delta":{"type":"input_json_delta","partial_json":"{\"a\":1}"}}"#), &mut state).unwrap();
    parse(p, &typed("content_block_stop", r#"{"index":1}"#), &mut state).unwrap();
    parse(p, &typed("message_delta", r#"{"delta":{"stop_reason":"end_turn"},"usage":{"output_tokens":9}}"#), &mut state).unwrap();
    assert!(!state.finished);
    parse(p, &typed("message_stop", r#"{"type":"message_stop"}"#), &mut state).unwrap();
    assert!(state.finished);
    assert_eq!(state.input_tokens, 12);
    assert_eq!(
        state.pending_events,
        vec![
            CanonicalEvent::Usage(Usage { input_tokens: 12, output_tokens: 1, total_tokens: None }),
            CanonicalEvent::TextDelta("Hi".to_string()),
            CanonicalEvent::ToolCallDelta {
                index: 1,
                id: Some("tu1".to_string()),
                name: Some("add".to_string()),
                arguments: String::new(),
            },
            CanonicalEvent::ToolCallDelta { index: 1, id: None, name: None, arguments: "{\"a\":1}".to_string() },
            CanonicalEvent::FinishReason("end_turn".to_string()),
            CanonicalEvent::Usage(Usage { input_tokens: 12, output_tokens: 9, total_tokens: None }),
        ]
    );
    let mut state = StreamParseState::new();
    parse(p, &typed("error", r#"{"type":"error","error":{"type":"overloaded_error","message":"busy"}}"#), &mut state).unwrap();
    assert_eq!(state.pending_events, vec![CanonicalEvent::Error("busy".to_string())]);
}

// ---- running

#[test]
fn failed_first_candidate_is_recorded_and_the_second_answers() {
    let mut script = vec![TransportEvent::Unreachable("connection refused".to_string())];
    script.extend(ok_stream());
    let both = replay(
        vec![plan("openai", ProtocolType::OpenAiCompatible), plan("aiGateway", ProtocolType::OpenAiCompatible)],
        &script,
    );
    let alone = replay(vec![plan("aiGateway", ProtocolType::OpenAiCompatible)], &ok_stream());
    assert_eq!(both.events, alone.events);
    assert_eq!(both.outcome, alone.outcome);
    assert_eq!(both.outcome, Some(Ok(())));
    assert_eq!(both.phase, Phase::Completed);
    assert_eq!(
        both.events,
        vec![
            CanonicalEvent::TextDelta("Hel".to_string()),
            CanonicalEvent::TextDelta("lo".to_string()),
            CanonicalEvent::FinishReason("stop".to_string()),
        ]
    );
    // the failure is on record
    let (mut run, first) = StreamRun::start(vec![
        plan("openai", ProtocolType::OpenAiCompatible),
        plan("aiGateway", ProtocolType::OpenAiCompatible),
    ]);
    assert!(matches!(first, RunnerAction::Connect { position: 0, .. }));
    let next = run.step(&TransportEvent::Rejected { status: 500, body: "boom".to_string() });
    match next {
        RunnerAction::Connect { position, provider_id, .. } => {
            assert_eq!(position, 1);
            assert_eq!(provider_id, "aiGateway");
        }
        other => panic!("unexpected action {:?}", other),
    }
    assert_eq!(run.position(), 1);
    assert_eq!(run.failures().len(), 1);
    assert_eq!(run.failures()[0].provider_id, "openai");
    assert_eq!(run.failures()[0].error.kind, ErrorKind::Network);
    assert_eq!(run.failures()[0].error.message, "Request failed: boom");
}

#[test]
fn auth_failure_is_retried_once_after_one_refresh() {
    let script = vec![
        TransportEvent::Rejected { status: 401, body: "expired".to_string() },
        TransportEvent::Refreshed(true),
        TransportEvent::Rejected { status: 403, body: "still".to_string() },
    ];
    let report = replay(vec![plan("openai", ProtocolType::OpenAiCompatible)], &script);
    assert_eq!(report.refreshes, 1);
    assert_eq!(report.phase, Phase::Failed);
    match report.outcome {
        Some(Err(e)) => {
            assert_eq!(e.kind, ErrorKind::AllProvidersFailed);
            assert_eq!(e.attempts.len(), 1);
            assert_eq!(e.attempts[0].error.kind, ErrorKind::AuthExpired);
            assert_eq!(e.attempts[0].error.message, "Credentials rejected after refresh");
            assert!(!e.partial);
        }
        other => panic!("unexpected outcome {:?}", other),
    }
    // step by step: refresh, connect to the same candidate, then leave it
    let (mut run, _) = StreamRun::start(vec![
        plan("openai", ProtocolType::OpenAiCompatible),
        plan("aiGateway", ProtocolType::OpenAiCompatible),
    ]);
    let a = run.step(&TransportEvent::Rejected { status: 401, body: String::new() });
    assert_eq!(a, RunnerAction::Refresh { provider_id: "openai".to_string() });
    assert_eq!(run.phase(), Phase::Refreshing);
    let b = run.step(&TransportEvent::Refreshed(true));
    assert!(matches!(b, RunnerAction::Connect { position: 0, .. }));
    let c = run.step(&TransportEvent::Rejected { status: 401, body: String::new() });
    assert!(matches!(c, RunnerAction::Connect { position: 1, .. }));
    // the next candidate has its own refresh
    let d = run.step(&TransportEvent::Rejected { status: 401, body: String::new() });
    assert_eq!(d, RunnerAction::Refresh { provider_id: "aiGateway".to_string() });
    let e = run.step(&TransportEvent::Refreshed(false));
    match e {
        RunnerAction::Finish { outcome: Err(e), .. } => {
            assert_eq!(e.attempts.len(), 2);
            assert_eq!(e.attempts[1].error.message, "Credential refresh failed");
        }
        other => panic!("unexpected action {:?}", other),
    }
}

#[test]
fn failure_after_output_ends_the_run_with_what_was_produced() {
    let script = vec![
        TransportEvent::Connected,
        TransportEvent::Frame(frame(r#"{"choices":[{"delta":{"content":"par"}}]}"#)),
        TransportEvent::Broken("reset by peer".to_string()),
        TransportEvent::Connected,
    ];
    let report = replay(
        vec![plan("openai", ProtocolType::OpenAiCompatible), plan("aiGateway", ProtocolType::OpenAiCompatible)],
        &script,
    );
    assert_eq!(report.events, vec![CanonicalEvent::TextDelta("par".to_string())]);
    assert_eq!(report.phase, Phase::Failed);
    match report.outcome {
        Some(Err(e)) => {
            assert_eq!(e.kind, ErrorKind::Network);
            assert_eq!(e.message, "reset by peer");
            assert!(e.partial);
            assert_eq!(e.attempts.len(), 1);
        }
        other => panic!("unexpected outcome {:?}", other),
    }
    // before any output the next candidate is tried
    let script = vec![TransportEvent::Connected, TransportEvent::Closed];
    let (mut run, _) = StreamRun::start(vec![
        plan("openai", ProtocolType::OpenAiCompatible),
        plan("aiGateway", ProtocolType::OpenAiCompatible),
    ]);
    run.step(&script[0]);
    let next = run.step(&script[1]);
    assert!(matches!(next, RunnerAction::Connect { position: 1, .. }));
    assert_eq!(run.failures()[0].error.message, "Stream ended before completion");
    // a malformed payload is a protocol failure
    run.step(&TransportEvent::Connected);
    match run.step(&TransportEvent::Frame(frame("{]"))) {
        RunnerAction::Finish { outcome: Err(e), events } => {
            assert!(events.is_empty());
            assert_eq!(e.kind, ErrorKind::AllProvidersFailed);
            assert_eq!(e.attempts[1].error.kind, ErrorKind::Protocol);
        }
        other => panic!("unexpected action {:?}", other),
    }
}

#[test]
fn nothing_is_forwarded_after_cancellation() {
    let mut script = vec![TransportEvent::Connected, TransportEvent::Cancelled];
    script.extend(ok_stream());
    let report = replay(vec![plan("openai", ProtocolType::OpenAiCompatible)], &script);
    assert!(report.events.is_empty());
    assert_eq!(report.outcome, None);
    assert_eq!(report.phase, Phase::Cancelled);
    let (mut run, _) = StreamRun::start(vec![plan("openai", ProtocolType::OpenAiCompatible)]);
    assert_eq!(run.step(&TransportEvent::Cancelled), RunnerAction::Abort);
    assert_eq!(run.step(&TransportEvent::Connected), RunnerAction::Wait);
}

#[test]
fn run_without_candidates_fails_at_once() {
    let report = replay(vec![], &ok_stream());
    assert_eq!(report.phase, Phase::Failed);
    match report.outcome {
        Some(Err(e)) => {
            assert_eq!(e.kind, ErrorKind::AllProvidersFailed);
            assert_eq!(e.message, "All providers failed");
            assert!(e.attempts.is_empty());
        }
        other => panic!("unexpected outcome {:?}", other),
    }
}

// ---- collecting

#[test]
fn collector_times_out_at_the_deadline() {
    // a run that never reaches its terminal marker
    let endless: Vec<TransportEvent> = std::iter::once(TransportEvent::Connected)
        .chain((0..10).map(|_| TransportEvent::Frame(frame(r#"{"choices":[{"delta":{"content":"x"}}]}"#))))
        .collect();
    // observations at 5, 10, ..., 55: the seventh is the first at or past 30
    let script = timed(endless, 5);
    let collection = collect_with_runner(vec![plan("openai", ProtocolType::OpenAiCompatible)], &script, 30);
    match collection.result {
        Some(Err(e)) => {
            assert_eq!(e.kind, ErrorKind::Timeout);
            assert_eq!(e.message, "Stream collection timed out");
        }
        other => panic!("unexpected result {:?}", other),
    }
    assert_eq!(collection.phase, Phase::Cancelled);
    // just before the deadline there is no result yet
    let early: Vec<TimedEvent> = script.iter().filter(|t| t.elapsed_ms < 30).cloned().collect();
    let collection = collect_with_runner(vec![plan("openai", ProtocolType::OpenAiCompatible)], &early, 30);
    assert_eq!(collection.result, None);
    assert_eq!(collection.phase, Phase::Streaming);
    // a collector observes by itself as well
    let mut collector = StreamCollector::new(30);
    let forward = RunnerAction::Forward { events: vec![CanonicalEvent::TextDelta("x".to_string())] };
    assert!(!collector.observe(29, &forward));
    assert!(!collector.is_done());
    assert!(collector.observe(30, &forward));
    assert!(collector.is_done());
    assert!(!collector.observe(31, &forward));
    assert_eq!(collector.into_result().unwrap().unwrap_err().kind, ErrorKind::Timeout);
}

#[test]
fn collector_gathers_text_and_the_last_usage_and_reason() {
    let mut collector = StreamCollector::new(1000);
    let first = RunnerAction::Forward {
        events: vec![
            CanonicalEvent::TextDelta("a".to_string()),
            CanonicalEvent::Usage(Usage { input_tokens: 1, output_tokens: 1, total_tokens: None }),
            CanonicalEvent::ToolCallDelta { index: 0, id: None, name: None, arguments: "{}".to_string() },
            CanonicalEvent::FinishReason("length".to_string()),
        ],
    };
    let last = RunnerAction::Finish {
        events: vec![
            CanonicalEvent::TextDelta("b".to_string()),
            CanonicalEvent::FinishReason("stop".to_string()),
            CanonicalEvent::Usage(Usage { input_tokens: 1, output_tokens: 2, total_tokens: Some(3) }),
        ],
        outcome: Ok(()),
    };
    assert!(!collector.observe(1, &first));
    assert!(!collector.observe(2, &RunnerAction::Wait));
    assert!(!collector.observe(3, &last));
    assert_eq!(
        collector.into_result(),
        Some(Ok(CollectedText {
            text: "ab".to_string(),
            usage: Some(Usage { input_tokens: 1, output_tokens: 2, total_tokens: Some(3) }),
            finish_reason: Some("stop".to_string()),
        }))
    );
}

#[test]
fn collector_reports_the_failure_of_the_run_and_of_the_provider() {
    let report = collect_with_runner(
        vec![plan("openai", ProtocolType::OpenAiCompatible)],
        &timed(vec![TransportEvent::Unreachable("down".to_string())], 1),
        30,
    );
    let e = report.result.unwrap().unwrap_err();
    assert_eq!((e.kind, e.message.as_str()), (ErrorKind::AllProvidersFailed, "All providers failed"));
    let report = collect_with_runner(
        vec![plan("openai", ProtocolType::OpenAiCompatible)],
        &timed(vec![
            TransportEvent::Connected,
            TransportEvent::Frame(frame(r#"{"error":{"message":"quota"}}"#)),
            TransportEvent::Frame(frame(r#"{"choices":[{"delta":{"content":"x"}}]}"#)),
        ], 1),
        30,
    );
    let e = report.result.unwrap().unwrap_err();
    assert_eq!((e.kind, e.message.as_str()), (ErrorKind::Protocol, "quota"));
    assert_eq!(report.phase, Phase::Cancelled);
}

#[test]
fn completion_end_to_end() {
    let runner = StreamRunner::new(registry(), keys(&["openai"]), catalog());
    let mut r = request("gpt-4o", vec![user("hi")]);
    r.temperature = Some(1.0f64.to_bits());
    let plans = runner.plan(&r, FallbackStrategy::AnyAvailable, &defaults()).unwrap();
    assert_eq!(plans.len(), 1);
    assert_eq!(plans[0].provider_id, "openai");
    let payload = &plans[0].request;
    assert_eq!(payload.get("model"), Some(&text("gpt-4o")));
    assert_eq!(
        payload.get("messages"),
        Some(&Json::Array(vec![object(vec![("role", text("user")), ("content", text("hi"))])]))
    );
    assert_eq!(payload.get("temperature"), Some(&Json::Real(1.0f64.to_bits())));
    let collection = collect_with_runner(plans, &timed(ok_stream(), 10), 30_000);
    assert_eq!(collection.phase, Phase::Completed);
    assert_eq!(
        collection.result,
        Some(Ok(CollectedText {
            text: "Hello".to_string(),
            usage: None,
            finish_reason: Some("stop".to_string()),
        }))
    );
}

#[test]
fn plan_fails_before_anything_is_sent() {
    let runner = StreamRunner::new(registry(), keys(&["openai"]), catalog());
    let e = runner.plan(&request("gpt-4o", vec![]), FallbackStrategy::AnyAvailable, &defaults()).unwrap_err();
    assert_eq!(e.kind, ErrorKind::Validation);
    let e = runner.plan(&request("sonnet-large", vec![user("x")]), FallbackStrategy::AnyAvailable, &defaults()).unwrap_err();
    assert_eq!(e.kind, ErrorKind::Configuration);
    let request = StreamCollector::create_completion_request("gpt-4o".to_string(), "say hi".to_string());
    assert_eq!(request, StreamTextRequest { stream: Some(true), ..self::request("gpt-4o", vec![user("say hi")]) });
}
