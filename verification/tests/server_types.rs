use talkcody_llm::json::Json;
use talkcody_llm::protocols::transport::{
    chat_endpoint, request_headers, resolve_base_url, set_header,
};
use talkcody_llm::server_types::{
    Attachment, ErrorResponse, FileResponse, MessageResponse, MessageRole, Session,
    SessionResponse, StoredMessage,
};
use talkcody_llm::types::{AuthType, ProtocolType, ProviderConfig};

#[test]
fn error_response_holds_code_and_message() {
    let response = ErrorResponse::new("not_found", "no such session".to_string());
    assert_eq!(response.error.code, "not_found");
    assert_eq!(response.error.message, "no such session");
}

#[test]
fn stored_records_become_answers_field_by_field() {
    let session = SessionResponse::from(Session {
        id: "s1".to_string(),
        project_id: Some("p".to_string()),
        title: None,
        status: "active".to_string(),
        created_at: 1,
        updated_at: 2,
        last_event_id: Some("e9".to_string()),
        metadata: Some(Json::Bool(true)),
    });
    assert_eq!((session.id.as_str(), session.status.as_str()), ("s1", "active"));
    assert_eq!((session.created_at, session.updated_at), (1, 2));
    assert_eq!(session.project_id.as_deref(), Some("p"));
    assert_eq!(session.last_event_id.as_deref(), Some("e9"));
    assert_eq!(session.metadata, Some(Json::Bool(true)));
    assert!(session.title.is_none());
    let message = MessageResponse::from(StoredMessage {
        id: "m1".to_string(),
        session_id: "s1".to_string(),
        role: MessageRole::Assistant,
        content: Json::Str("hi".to_string()),
        created_at: 3,
        tool_call_id: None,
        parent_id: Some("m0".to_string()),
    });
    assert_eq!(message.role, "assistant");
    assert_eq!(message.content, Json::Str("hi".to_string()));
    assert_eq!(message.parent_id.as_deref(), Some("m0"));
    assert_eq!(MessageRole::Tool.as_str(), "tool");
    assert_eq!(MessageRole::System.as_str(), "system");
    assert_eq!(MessageRole::User.as_str(), "user");
    let file = FileResponse::from(Attachment {
        id: "f".to_string(),
        session_id: "s1".to_string(),
        filename: "a.png".to_string(),
        mime_type: "image/png".to_string(),
        size: 10,
        created_at: 4,
    });
    assert_eq!((file.filename.as_str(), file.mime_type.as_str(), file.size), ("a.png", "image/png", 10));
}

fn provider(protocol: ProtocolType, auth_type: AuthType) -> ProviderConfig {
    ProviderConfig {
        id: "p".to_string(),
        name: "P".to_string(),
        protocol,
        base_url: "https://p.example/v1/".to_string(),
        api_key_name: "P_API_KEY".to_string(),
        supports_oauth: false,
        supports_coding_plan: true,
        supports_international: false,
        coding_plan_base_url: Some("https://plan.example".to_string()),
        international_base_url: Some("https://intl.example".to_string()),
        headers: None,
        extra_body: None,
        auth_type,
    }
}

#[test]
fn base_address_follows_the_variant_asked_for() {
    let mut p = provider(ProtocolType::OpenAiCompatible, AuthType::Bearer);
    assert_eq!(resolve_base_url(&p, false, false), "https://p.example/v1/");
    assert_eq!(resolve_base_url(&p, true, true), "https://plan.example");
    // a variant that is not supported is not used
    assert_eq!(resolve_base_url(&p, false, true), "https://p.example/v1/");
    p.supports_international = true;
    assert_eq!(resolve_base_url(&p, false, true), "https://intl.example");
    p.coding_plan_base_url = None;
    assert_eq!(resolve_base_url(&p, true, true), "https://intl.example");
    assert_eq!(chat_endpoint(ProtocolType::OpenAiCompatible, "https://p.example/v1/"), "https://p.example/v1/chat/completions");
    assert_eq!(chat_endpoint(ProtocolType::Google, "https://g"), "https://g/chat/completions");
    assert_eq!(chat_endpoint(ProtocolType::Anthropic, "https://a/v1///"), "https://a/v1/messages");
}

#[test]
fn request_headers_present_the_secret_as_the_provider_asks() {
    let pair = |a: &str, b: &str| (a.to_string(), b.to_string());
    assert_eq!(
        request_headers(&provider(ProtocolType::OpenAiCompatible, AuthType::Bearer), "k"),
        vec![pair("Content-Type", "application/json"), pair("Authorization", "Bearer k")]
    );
    assert_eq!(
        request_headers(&provider(ProtocolType::Anthropic, AuthType::ApiKey), "k"),
        vec![
            pair("Content-Type", "application/json"),
            pair("x-api-key", "k"),
            pair("anthropic-version", "2023-06-01"),
        ]
    );
    let mut p = provider(ProtocolType::OpenAiCompatible, AuthType::NoAuth);
    p.headers = Some(vec![pair("X-Title", "app"), pair("Content-Type", "text/plain"), pair("X-Title", "app2")]);
    assert_eq!(
        request_headers(&p, "unused"),
        vec![pair("Content-Type", "text/plain"), pair("X-Title", "app2")]
    );
    let mut headers = vec![pair("a", "1")];
    set_header(&mut headers, "b", "2");
    set_header(&mut headers, "a", "3");
    assert_eq!(headers, vec![pair("a", "3"), pair("b", "2")]);
}
