use talkcody_llm::http_status::{is_auth_error, is_success};
use talkcody_llm::json::Json;
use talkcody_llm::openai_usage::{
    load_refresh_token, usage_headers, UsageEvent, UsageFlow, UsagePhase, UsageResponse, UsageStep,
    OPENAI_OAUTH_EXPIRED_MESSAGE, OPENAI_OAUTH_MISSING_MESSAGE, OPENAI_USAGE_DEFAULT_URL,
};

fn answered(status: u16, text: &str) -> UsageEvent {
    UsageEvent::Fetched(UsageResponse { status, text: text.to_string() })
}

#[test]
fn usage_status_classes() {
    assert!(is_auth_error(401) && is_auth_error(403));
    assert!(!is_auth_error(400) && !is_auth_error(200) && !is_auth_error(500));
    assert!(is_success(200) && is_success(299));
    assert!(!is_success(199) && !is_success(300));
}

#[test]
fn usage_request_is_formed_as_documented() {
    assert_eq!(OPENAI_USAGE_DEFAULT_URL, "https://chatgpt.com/backend-api/wham/usage");
    assert_eq!(
        usage_headers("tok"),
        vec![
            ("Accept".to_string(), "application/json".to_string()),
            ("Authorization".to_string(), "Bearer tok".to_string()),
            ("originator".to_string(), "codex_cli_rs".to_string()),
        ]
    );
    assert_eq!(load_refresh_token(Some(" r ".to_string())), Some(" r ".to_string()));
    assert_eq!(load_refresh_token(Some("  ".to_string())), None);
    assert_eq!(load_refresh_token(None), None);
}

#[test]
fn usage_with_a_good_token_is_read() {
    let (mut flow, step) = UsageFlow::begin(Some("tok".to_string()), Some("ref".to_string()));
    assert_eq!(step, UsageStep::Fetch { token: "tok".to_string() });
    match flow.advance(answered(200, "{\"used\": 3}")) {
        UsageStep::Done(Ok(value)) => assert_eq!(value.get("used"), Some(&Json::Int(3))),
        other => panic!("unexpected step {:?}", other),
    }
    assert_eq!(flow.phase, UsagePhase::Finished);
}

#[test]
fn usage_without_any_token_is_not_connected() {
    let (flow, step) = UsageFlow::begin(Some(" ".to_string()), None);
    assert_eq!(step, UsageStep::Done(Err(OPENAI_OAUTH_MISSING_MESSAGE.to_string())));
    assert_eq!(flow.phase, UsagePhase::Finished);
    let (_, step) = UsageFlow::begin(None, Some("".to_string()));
    assert_eq!(
        step,
        UsageStep::Done(Err("OpenAI OAuth not connected. Please connect your OpenAI account in settings.".to_string()))
    );
}

#[test]
fn usage_without_access_token_refreshes_first() {
    let (mut flow, step) = UsageFlow::begin(None, Some("ref".to_string()));
    assert_eq!(step, UsageStep::Refresh { refresh_token: "ref".to_string() });
    let step = flow.advance(UsageEvent::Refreshed {
        token: "new".to_string(),
        refresh_setting: Some("ref2".to_string()),
    });
    assert_eq!(step, UsageStep::Fetch { token: "new".to_string() });
    // the rotated refresh token is the one used for the retry
    let step = flow.advance(answered(401, "no"));
    assert_eq!(step, UsageStep::Refresh { refresh_token: "ref2".to_string() });
    let (mut flow, _) = UsageFlow::begin(None, Some("ref".to_string()));
    assert_eq!(
        flow.advance(UsageEvent::RefreshFailed("refresh denied".to_string())),
        UsageStep::Done(Err("refresh denied".to_string()))
    );
}

#[test]
fn usage_rejection_is_retried_once() {
    let (mut flow, _) = UsageFlow::begin(Some("tok".to_string()), Some("ref".to_string()));
    assert_eq!(flow.advance(answered(403, "no")), UsageStep::Refresh { refresh_token: "ref".to_string() });
    assert_eq!(
        flow.advance(UsageEvent::Refreshed { token: "new".to_string(), refresh_setting: None }),
        UsageStep::Fetch { token: "new".to_string() }
    );
    assert_eq!(
        flow.advance(answered(401, "still no")),
        UsageStep::Done(Err(OPENAI_OAUTH_EXPIRED_MESSAGE.to_string()))
    );
    // a retry that succeeds is read
    let (mut flow, _) = UsageFlow::begin(Some("tok".to_string()), Some("ref".to_string()));
    flow.advance(answered(401, "no"));
    flow.advance(UsageEvent::Refreshed { token: "new".to_string(), refresh_setting: None });
    assert_eq!(flow.advance(answered(200, "[1]")), UsageStep::Done(Ok(Json::Array(vec![Json::Int(1)]))));
    // without a refresh token, or where the refresh fails, the session has expired
    let (mut flow, _) = UsageFlow::begin(Some("tok".to_string()), None);
    assert_eq!(
        flow.advance(answered(401, "no")),
        UsageStep::Done(Err("OpenAI OAuth session expired. Please reconnect your OpenAI account in settings.".to_string()))
    );
    let (mut flow, _) = UsageFlow::begin(Some("tok".to_string()), Some("ref".to_string()));
    flow.advance(answered(401, "no"));
    assert_eq!(
        flow.advance(UsageEvent::RefreshFailed("denied".to_string())),
        UsageStep::Done(Err(OPENAI_OAUTH_EXPIRED_MESSAGE.to_string()))
    );
}

#[test]
fn usage_failures_are_reported_in_words() {
    let (mut flow, _) = UsageFlow::begin(Some("tok".to_string()), Some("ref".to_string()));
    assert_eq!(
        flow.advance(answered(500, "boom")),
        UsageStep::Done(Err("OpenAI usage request failed (500 Internal Server Error): boom".to_string()))
    );
    let (mut flow, _) = UsageFlow::begin(Some("tok".to_string()), None);
    assert_eq!(
        flow.advance(UsageEvent::FetchFailed("OpenAI usage request failed: timed out".to_string())),
        UsageStep::Done(Err("OpenAI usage request failed: timed out".to_string()))
    );
    let (mut flow, _) = UsageFlow::begin(Some("tok".to_string()), None);
    assert_eq!(
        flow.advance(answered(200, "{\"used\": ")),
        UsageStep::Done(Err(
            "Failed to parse OpenAI usage response: EOF while parsing a value at line 1 column 9".to_string()
        ))
    );
}
