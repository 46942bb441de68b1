use talkcody_llm::json::{Json, Member};
use talkcody_llm::tracing::attributes;
use talkcody_llm::tracing::helpers;
use talkcody_llm::tracing::span::{TraceBuilder, TracingSpan};
use talkcody_llm::tracing::types::{
    bool_attr, float_attr, int_attr, string_attr, Span, SpanEvent, Trace, TraceCommand,
};

fn get<'a>(attrs: &'a [Member], key: &str) -> Option<&'a Json> {
    attrs.iter().find(|m| m.key == key).map(|m| &m.value)
}

#[test]
fn test_trace_creation() {
    let trace = Trace {
        id: "20260130123456789-abc12345".to_string(),
        started_at: 1706611200000,
        ended_at: None,
        metadata: None,
    };

    assert_eq!(trace.id, "20260130123456789-abc12345");
    assert_eq!(trace.started_at, 1706611200000);
    assert!(trace.ended_at.is_none());
}

#[test]
fn test_span_creation() {
    let attributes = vec![
        Member { key: attributes::GEN_AI_REQUEST_MODEL.to_string(), value: string_attr("gpt-4") },
        Member { key: attributes::GEN_AI_USAGE_INPUT_TOKENS.to_string(), value: int_attr(100) },
    ];

    let span = Span {
        id: "a1b2c3d4e5f67890".to_string(),
        trace_id: "20260130123456789-abc12345".to_string(),
        parent_span_id: None,
        name: attributes::SPAN_STREAM_COMPLETION.to_string(),
        started_at: 1706611200000,
        ended_at: None,
        attributes,
    };

    assert_eq!(span.id.len(), 16);
    assert_eq!(span.name, "llm.stream_completion");
    assert!(get(&span.attributes, "gen_ai.request.model").is_some());
}

#[test]
fn test_span_event_creation() {
    let payload = Json::Object(vec![
        Member { key: "model".to_string(), value: Json::Str("gpt-4".to_string()) },
        Member {
            key: "messages".to_string(),
            value: Json::Array(vec![Json::Object(vec![
                Member { key: "role".to_string(), value: Json::Str("user".to_string()) },
                Member { key: "content".to_string(), value: Json::Str("Hello".to_string()) },
            ])]),
        },
    ]);

    let event = SpanEvent {
        id: "event-123".to_string(),
        span_id: "a1b2c3d4e5f67890".to_string(),
        timestamp: 1706611200000,
        event_type: attributes::HTTP_REQUEST_BODY.to_string(),
        payload: Some(payload),
    };

    assert_eq!(event.event_type, "http.request.body");
    assert!(event.payload.is_some());
}

#[test]
fn test_attribute_helpers() {
    assert_eq!(string_attr("test"), Json::Str("test".to_string()));
    assert_eq!(int_attr(42), Json::Int(42));
    assert_eq!(bool_attr(true), Json::Bool(true));
}

#[test]
fn float_attr_is_null_for_what_is_not_finite() {
    assert_eq!(float_attr(0.7f64.to_bits()), Json::Real(0.7f64.to_bits()));
    assert_eq!(float_attr(0.0f64.to_bits()), Json::Real(0));
    assert_eq!(float_attr(f64::NAN.to_bits()), Json::Null);
    assert_eq!(float_attr(f64::INFINITY.to_bits()), Json::Null);
    assert_eq!(float_attr(f64::NEG_INFINITY.to_bits()), Json::Null);
    assert_eq!(float_attr(f64::MAX.to_bits()), Json::Real(f64::MAX.to_bits()));
}

#[test]
fn test_helpers() {
    let builder = helpers::start_stream_completion_trace("t1".to_string(), "gpt-4", "openai");
    assert_eq!(builder.trace_id(), "t1");
    let (root, command) = builder.build("s1".to_string(), 5);
    match command {
        TraceCommand::CreateSpan(span) => {
            assert_eq!(span.name, "llm.stream_completion");
            assert_eq!(get(&span.attributes, "gen_ai.request.model"), Some(&Json::Str("gpt-4".to_string())));
            assert_eq!(get(&span.attributes, "gen_ai.system"), Some(&Json::Str("openai".to_string())));
        }
        _ => panic!("expected a span"),
    }
    assert_eq!(root.span_id(), "s1");

    let mut attrs = Vec::new();
    helpers::add_request_params(
        &mut attrs,
        Some((0.7f32 as f64).to_bits()),
        Some((0.9f32 as f64).to_bits()),
        Some(50),
        Some(2000),
    );
    assert!(get(&attrs, "gen_ai.request.temperature").is_some());
    assert!(get(&attrs, "gen_ai.request.max_tokens").is_some());
    assert_eq!(get(&attrs, "gen_ai.request.top_k"), Some(&Json::Int(50)));
    assert_eq!(attrs.len(), 4);

    let mut attrs = Vec::new();
    helpers::add_usage(&mut attrs, 100, 50, Some(150), Some(25), Some(10));
    assert_eq!(get(&attrs, "gen_ai.usage.input_tokens"), Some(&Json::Int(100)));
    assert_eq!(get(&attrs, "gen_ai.usage.output_tokens"), Some(&Json::Int(50)));
    assert_eq!(get(&attrs, "gen_ai.usage.total_tokens"), Some(&Json::Int(150)));
    assert_eq!(get(&attrs, "gen_ai.usage.cached_input_tokens"), Some(&Json::Int(25)));
    assert_eq!(get(&attrs, "gen_ai.usage.cache_creation_input_tokens"), Some(&Json::Int(10)));
    helpers::add_usage(&mut attrs, 1, 2, None, None, None);
    assert_eq!(attrs.len(), 5);
    assert_eq!(get(&attrs, "gen_ai.usage.input_tokens"), Some(&Json::Int(1)));

    let mut attrs = Vec::new();
    helpers::add_finish_reason(&mut attrs, "stop");
    assert_eq!(get(&attrs, "gen_ai.response.finish_reasons"), Some(&Json::Str("stop".to_string())));

    let mut attrs = Vec::new();
    helpers::add_error(&mut attrs, "timeout", "Request timed out");
    assert_eq!(get(&attrs, "error.type"), Some(&Json::Str("timeout".to_string())));
    assert_eq!(get(&attrs, "error.message"), Some(&Json::Str("Request timed out".to_string())));
}

#[test]
fn test_tracing_span_manual_close() {
    let (mut span, created) = TracingSpan::new(
        "s1".to_string(),
        "t1".to_string(),
        None,
        "test.span".to_string(),
        Vec::new(),
        10,
    );
    assert!(matches!(created, TraceCommand::CreateSpan(_)));
    assert!(!span.closed());
    assert_eq!(
        span.close_at(99),
        Some(TraceCommand::CloseSpan { span_id: "s1".to_string(), ended_at: 99 })
    );
    assert!(span.closed());
    // closing a closed span does nothing
    assert_eq!(span.close_at(100), None);
    assert_eq!(span.close(), None);
}

#[test]
fn test_tracing_span_lifecycle() {
    let (mut span, _) = TracingSpan::new(
        "s1".to_string(),
        "t1".to_string(),
        None,
        "test.span".to_string(),
        Vec::new(),
        10,
    );
    let event = span.add_event("e1".to_string(), "test.event", Some(Json::Null), 11);
    match event {
        TraceCommand::AddEvent(e) => {
            assert_eq!(e.span_id, "s1");
            assert_eq!(e.event_type, "test.event");
            assert_eq!(e.timestamp, 11);
        }
        _ => panic!("expected an event"),
    }
    match span.close() {
        Some(TraceCommand::CloseSpan { span_id, ended_at }) => {
            assert_eq!(span_id, "s1");
            assert!(ended_at > 1_600_000_000_000);
        }
        _ => panic!("expected the span to close"),
    }
    assert!(span.closed());
}

#[test]
fn test_child_span() {
    let (parent, _) = TracingSpan::new(
        "p".to_string(),
        "t1".to_string(),
        None,
        "parent.span".to_string(),
        Vec::new(),
        1,
    );
    let (child, created) = parent.create_child("c".to_string(), "child.span".to_string(), Vec::new(), 2);
    assert_eq!(child.trace_id(), "t1");
    assert_eq!(child.span_id(), "c");
    match created {
        TraceCommand::CreateSpan(span) => {
            assert_eq!(span.parent_span_id.as_deref(), Some("p"));
            assert_eq!(span.trace_id, "t1");
            assert_eq!(span.name, "child.span");
            assert_eq!(span.started_at, 2);
            assert!(span.ended_at.is_none());
        }
        _ => panic!("expected a span"),
    }
}

#[test]
fn test_trace_builder() {
    let (builder, created) = TraceBuilder::new("t9".to_string(), 7, "root.span");
    assert_eq!(
        created,
        TraceCommand::CreateTrace(Trace { id: "t9".to_string(), started_at: 7, ended_at: None, metadata: None })
    );
    let (root, command) = builder
        .with_attribute("custom.key", string_attr("custom.value"))
        .with_attribute("custom.key", string_attr("later"))
        .build("s".to_string(), 8);
    assert_eq!(root.trace_id(), "t9");
    match command {
        TraceCommand::CreateSpan(span) => {
            assert_eq!(span.attributes.len(), 1);
            assert_eq!(get(&span.attributes, "custom.key"), Some(&Json::Str("later".to_string())));
            assert!(span.parent_span_id.is_none());
        }
        _ => panic!("expected a span"),
    }
}
