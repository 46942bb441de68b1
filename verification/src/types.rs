//! The vocabulary shared by every part of the gateway: providers, messages,
//! requests, canonical stream events and typed errors.

use vstd::prelude::*;
use crate::json::{duplicate_members, members_view, Fields, Json, Member};
use crate::text::{clone_opt, clone_pairs, opt_view, pairs_view};

verus! {

/// A wire-format family. Each family has its own request schema, its own
/// stream schema and its own list of sampling parameters that it rejects.
#[derive(Debug, Clone, Copy, PartialEq, Eq, Structural)]
pub enum ProtocolType {
    /// The chat-completions schema, all sampling parameters accepted.
    OpenAiCompatible,
    /// The chat-completions schema as Google serves it, which rejects `top_k`.
    Google,
    /// The messages schema with typed stream events.
    Anthropic,
}

/// How a provider expects its secret to be presented.
#[derive(Debug, Clone, Copy, PartialEq, Eq, Structural)]
pub enum AuthType {
    /// `Authorization: Bearer <secret>`.
    Bearer,
    /// `x-api-key: <secret>`.
    ApiKey,
    /// No secret is sent.
    NoAuth,
}

/// One provider of the registry. Read-only once loaded.
#[derive(Debug, PartialEq)]
pub struct ProviderConfig {
    pub id: String,
    pub name: String,
    pub protocol: ProtocolType,
    pub base_url: String,
    pub api_key_name: String,
    pub supports_oauth: bool,
    pub supports_coding_plan: bool,
    pub supports_international: bool,
    pub coding_plan_base_url: Option<String>,
    pub international_base_url: Option<String>,
    pub headers: Option<Vec<(String, String)>>,
    pub extra_body: Option<Vec<Member>>,
    pub auth_type: AuthType,
}

/// The content of a provider configuration.
pub ghost struct ProviderConfigV {
    pub id: Seq<char>,
    pub name: Seq<char>,
    pub protocol: ProtocolType,
    pub base_url: Seq<char>,
    pub api_key_name: Seq<char>,
    pub supports_oauth: bool,
    pub supports_coding_plan: bool,
    pub supports_international: bool,
    pub coding_plan_base_url: Option<Seq<char>>,
    pub international_base_url: Option<Seq<char>>,
    pub headers: Option<Seq<(Seq<char>, Seq<char>)>>,
    pub extra_body: Option<Fields>,
    pub auth_type: AuthType,
}

impl View for ProviderConfig {
    type V = ProviderConfigV;

    open spec fn view(&self) -> ProviderConfigV {
        ProviderConfigV {
            id: self.id@,
            name: self.name@,
            protocol: self.protocol,
            base_url: self.base_url@,
            api_key_name: self.api_key_name@,
            supports_oauth: self.supports_oauth,
            supports_coding_plan: self.supports_coding_plan,
            supports_international: self.supports_international,
            coding_plan_base_url: opt_view(self.coding_plan_base_url),
            international_base_url: opt_view(self.international_base_url),
            headers: match self.headers {
                Some(h) => Some(pairs_view(h@)),
                None => None,
            },
            extra_body: match self.extra_body {
                Some(b) => Some(members_view(b@)),
                None => None,
            },
            auth_type: self.auth_type,
        }
    }
}

impl ProviderConfig {
    /// A copy with the same content.
    pub fn duplicate(&self) -> (copy: ProviderConfig)
        ensures
            copy@ == self@,
    {
        let headers = match &self.headers {
            Some(h) => Some(clone_pairs(h)),
            None => None,
        };
        let extra_body = match &self.extra_body {
            Some(b) => Some(duplicate_members(b)),
            None => None,
        };
        ProviderConfig {
            id: self.id.clone(),
            name: self.name.clone(),
            protocol: self.protocol,
            base_url: self.base_url.clone(),
            api_key_name: self.api_key_name.clone(),
            supports_oauth: self.supports_oauth,
            supports_coding_plan: self.supports_coding_plan,
            supports_international: self.supports_international,
            coding_plan_base_url: clone_opt(&self.coding_plan_base_url),
            international_base_url: clone_opt(&self.international_base_url),
            headers,
            extra_body,
            auth_type: self.auth_type,
        }
    }
}

/// The classes of failure that the gateway reports.
#[derive(Debug, Clone, Copy, PartialEq, Eq, Structural)]
pub enum ErrorKind {
    /// No eligible provider or model.
    Configuration,
    /// The provider is known but no usable secret is held for it.
    Credential,
    /// The secret was rejected, and so was the refreshed one.
    AuthExpired,
    /// The transport failed.
    Network,
    /// The wire payload cannot be recovered from.
    Protocol,
    /// Every candidate was tried and failed.
    AllProvidersFailed,
    /// The collector's deadline passed.
    Timeout,
    /// The caller's input is malformed.
    Validation,
}

/// A typed failure with a message for people.
#[derive(Debug, Clone, PartialEq)]
pub struct GatewayError {
    pub kind: ErrorKind,
    pub message: String,
}

/// The content of a failure.
pub ghost struct GatewayErrorV {
    pub kind: ErrorKind,
    pub message: Seq<char>,
}

impl View for GatewayError {
    type V = GatewayErrorV;

    open spec fn view(&self) -> GatewayErrorV {
        GatewayErrorV { kind: self.kind, message: self.message@ }
    }
}

impl GatewayError {
    /// A failure of class `kind` whose message is `prefix` followed by `subject`.
    pub fn about(kind: ErrorKind, prefix: &str, subject: &str) -> (e: GatewayError)
        ensures
            e@ == (GatewayErrorV { kind, message: prefix@ + subject@ }),
    {
        GatewayError { kind, message: crate::text::concat2(prefix, subject) }
    }

    /// A copy with the same content.
    pub fn duplicate(&self) -> (copy: GatewayError)
        ensures
            copy@ == self@,
    {
        GatewayError { kind: self.kind, message: self.message.clone() }
    }
}

/// One part of a structured message.
#[derive(Debug, PartialEq)]
pub enum ContentPart {
    /// A run of text.
    Text { text: String },
    /// An image, by its address.
    Image { url: String },
}

/// What a message says: plain text, or parts in order.
#[derive(Debug, PartialEq)]
pub enum MessageContent {
    Text(String),
    Parts(Vec<ContentPart>),
}

/// One message of a conversation. `provider_options` is handed through to
/// the provider as members of the message.
#[derive(Debug, PartialEq)]
pub enum Message {
    System { content: MessageContent, provider_options: Option<Vec<Member>> },
    User { content: MessageContent, provider_options: Option<Vec<Member>> },
    Assistant { content: MessageContent, provider_options: Option<Vec<Member>> },
    Tool { tool_call_id: String, content: MessageContent, provider_options: Option<Vec<Member>> },
}

/// A tool that the model may call. `parameters` is the JSON schema of its
/// arguments.
#[derive(Debug, PartialEq)]
pub struct ToolDefinition {
    pub name: String,
    pub description: String,
    pub parameters: Json,
}

/// The trace that a request belongs to.
#[derive(Debug, Clone, PartialEq)]
pub struct TraceContext {
    pub trace_id: String,
    pub parent_span_id: Option<String>,
}

/// A request for streamed text. Real numbers are given by the bits of their
/// doubles; the gateway hands them through and never computes with them.
#[derive(Debug, PartialEq)]
pub struct StreamTextRequest {
    pub model: String,
    pub messages: Vec<Message>,
    pub tools: Option<Vec<ToolDefinition>>,
    pub stream: Option<bool>,
    pub temperature: Option<u64>,
    pub max_tokens: Option<i32>,
    pub top_p: Option<u64>,
    pub top_k: Option<i32>,
    pub provider_options: Option<Vec<Member>>,
    pub request_id: Option<String>,
    pub trace_context: Option<TraceContext>,
}

/// Token counts of an answer.
#[derive(Debug, Clone, Copy, PartialEq, Eq, Structural)]
pub struct Usage {
    pub input_tokens: i64,
    pub output_tokens: i64,
    pub total_tokens: Option<i64>,
}

/// One normalized unit of a streamed answer. The order of arrival is part
/// of the answer: the text deltas in order make up the text.
#[derive(Debug, Clone, PartialEq)]
pub enum CanonicalEvent {
    /// More text.
    TextDelta(String),
    /// More of the tool call at `index`: its id and name where this unit
    /// carries them, and more of its arguments.
    ToolCallDelta { index: i64, id: Option<String>, name: Option<String>, arguments: String },
    /// Token counts so far.
    Usage(Usage),
    /// Why the answer ended.
    FinishReason(String),
    /// A failure that the provider reported in the stream.
    Error(String),
}

/// The content of a canonical event.
pub ghost enum EventV {
    TextDelta(Seq<char>),
    ToolCallDelta { index: i64, id: Option<Seq<char>>, name: Option<Seq<char>>, arguments: Seq<char> },
    Usage(Usage),
    FinishReason(Seq<char>),
    Error(Seq<char>),
}

impl View for CanonicalEvent {
    type V = EventV;

    open spec fn view(&self) -> EventV {
        match self {
            CanonicalEvent::TextDelta(text) => EventV::TextDelta(text@),
            CanonicalEvent::ToolCallDelta { index, id, name, arguments } => EventV::ToolCallDelta {
                index: *index,
                id: opt_view(*id),
                name: opt_view(*name),
                arguments: arguments@,
            },
            CanonicalEvent::Usage(usage) => EventV::Usage(*usage),
            CanonicalEvent::FinishReason(reason) => EventV::FinishReason(reason@),
            CanonicalEvent::Error(message) => EventV::Error(message@),
        }
    }
}

/// The contents of a sequence of events.
pub open spec fn events_view(events: Seq<CanonicalEvent>) -> Seq<EventV> {
    events.map_values(|e: CanonicalEvent| e@)
}

impl CanonicalEvent {
    /// A copy with the same content.
    pub fn duplicate(&self) -> (copy: CanonicalEvent)
        ensures
            copy@ == self@,
    {
        match self {
            CanonicalEvent::TextDelta(text) => CanonicalEvent::TextDelta(text.clone()),
            CanonicalEvent::ToolCallDelta { index, id, name, arguments } => {
                CanonicalEvent::ToolCallDelta {
                    index: *index,
                    id: clone_opt(id),
                    name: clone_opt(name),
                    arguments: arguments.clone(),
                }
            },
            CanonicalEvent::Usage(usage) => CanonicalEvent::Usage(*usage),
            CanonicalEvent::FinishReason(reason) => CanonicalEvent::FinishReason(reason.clone()),
            CanonicalEvent::Error(message) => CanonicalEvent::Error(message.clone()),
        }
    }
}

} // verus!
