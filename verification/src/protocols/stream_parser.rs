//! Stream parsing: from the frames of one wire-format family to canonical
//! events, queued in the order in which the frames arrived.

use vstd::prelude::*;
use crate::json::{decode, items_view, json_decoding, lemma_items_view, Decoded, DecodingV, Json, JsonV};
use crate::text::{blank, concat2, is_blank, opt_view, owned, str_eq, trim, trimmed};
use crate::types::{
    events_view, CanonicalEvent, ErrorKind, EventV, GatewayError, GatewayErrorV, ProtocolType,
    Usage,
};

verus! {

/// One raw unit of a stream: the event type where the transport gave one,
/// and the data.
#[derive(Debug, Clone, PartialEq)]
pub struct StreamFrame {
    pub event_type: Option<String>,
    pub data: String,
}

/// The accumulator of one attempt. `buffer` holds data that is not yet a
/// whole JSON value; `pending_events` is the queue that the caller drains;
/// `finished` is the terminal marker; `input_tokens` is the count that the
/// provider gave when the answer began.
#[derive(Debug, Clone, PartialEq)]
pub struct StreamParseState {
    pub buffer: String,
    pub pending_events: Vec<CanonicalEvent>,
    pub finished: bool,
    pub input_tokens: i64,
}

/// The content of a parse state.
pub ghost struct ParseStateV {
    pub buffer: Seq<char>,
    pub pending: Seq<EventV>,
    pub finished: bool,
    pub input_tokens: i64,
}

impl View for StreamParseState {
    type V = ParseStateV;

    open spec fn view(&self) -> ParseStateV {
        ParseStateV {
            buffer: self.buffer@,
            pending: events_view(self.pending_events@),
            finished: self.finished,
            input_tokens: self.input_tokens,
        }
    }
}

/// The state in which an attempt begins.
pub open spec fn fresh_state() -> ParseStateV {
    ParseStateV { buffer: Seq::empty(), pending: Seq::empty(), finished: false, input_tokens: 0 }
}

/// Member `key` of a value that may be absent.
pub open spec fn child(parent: Option<JsonV>, key: Seq<char>) -> Option<JsonV> {
    match parent {
        Some(p) => p.member(key),
        None => None,
    }
}

/// The text of a value, where it is present and a string.
pub open spec fn text_of(value: Option<JsonV>) -> Option<Seq<char>> {
    match value {
        Some(JsonV::Str(s)) => Some(s),
        _ => None,
    }
}

/// The text of a value, or no text.
pub open spec fn text_or_empty(value: Option<JsonV>) -> Seq<char> {
    match text_of(value) {
        Some(s) => s,
        None => Seq::empty(),
    }
}

/// The integer of a value, where it is present and an integer of 64 bits.
pub open spec fn int_of(value: Option<JsonV>) -> Option<i64> {
    match value {
        Some(j) => j.integer(),
        None => None,
    }
}

/// The integer of a value, or zero.
pub open spec fn int_or_zero(value: Option<JsonV>) -> i64 {
    match int_of(value) {
        Some(i) => i,
        None => 0,
    }
}

/// The message of a failure that a provider reports: member `message` of
/// the report, the report itself where it is text, or a stock phrase.
pub open spec fn error_text(report: Option<JsonV>) -> Seq<char> {
    match text_of(child(report, "message"@)) {
        Some(m) => m,
        None => match text_of(report) {
            Some(m) => m,
            None => "unknown error"@,
        },
    }
}

/// The event for the text of a delta: none where the text is absent or empty.
pub open spec fn text_events(text: Option<JsonV>) -> Seq<EventV> {
    match text_of(text) {
        Some(s) => if s.len() > 0 {
            seq![EventV::TextDelta(s)]
        } else {
            Seq::empty()
        },
        None => Seq::empty(),
    }
}

/// The event for the reason an answer ended: none where no reason is given.
pub open spec fn finish_events(reason: Option<JsonV>) -> Seq<EventV> {
    match text_of(reason) {
        Some(r) => seq![EventV::FinishReason(r)],
        None => Seq::empty(),
    }
}

/// The event for one entry of `tool_calls`.
pub open spec fn tool_call_event(item: JsonV) -> EventV {
    EventV::ToolCallDelta {
        index: int_or_zero(item.member("index"@)),
        id: text_of(item.member("id"@)),
        name: text_of(child(item.member("function"@), "name"@)),
        arguments: text_or_empty(child(item.member("function"@), "arguments"@)),
    }
}

/// The events for the entries of `tool_calls`, in order.
pub open spec fn tool_call_events(items: Seq<JsonV>) -> Seq<EventV>
    decreases items.len(),
{
    if items.len() == 0 {
        Seq::empty()
    } else {
        tool_call_events(items.drop_last()).push(tool_call_event(items.last()))
    }
}

/// The events for the member `tool_calls` of a delta.
pub open spec fn tools_events(tool_calls: Option<JsonV>) -> Seq<EventV> {
    match tool_calls {
        Some(JsonV::Array(items)) => tool_call_events(items),
        _ => Seq::empty(),
    }
}

/// The event for the member `usage` of a chat-completions chunk.
pub open spec fn openai_usage_events(usage: Option<JsonV>) -> Seq<EventV> {
    match usage {
        Some(JsonV::Object(_)) => seq![
            EventV::Usage(
                Usage {
                    input_tokens: int_or_zero(child(usage, "prompt_tokens"@)),
                    output_tokens: int_or_zero(child(usage, "completion_tokens"@)),
                    total_tokens: int_of(child(usage, "total_tokens"@)),
                },
            ),
        ],
        _ => Seq::empty(),
    }
}

/// The first choice of a chat-completions chunk.
pub open spec fn first_choice(document: JsonV) -> Option<JsonV> {
    match document.member("choices"@) {
        Some(choices) => choices.element(0),
        None => None,
    }
}

/// Whether a chunk reports a failure: it has a member `error` that is not
/// `null`.
pub open spec fn reports_error(document: JsonV) -> bool {
    document.member("error"@) is Some && !(document.member("error"@)->Some_0 is Null)
}

/// The events of one chat-completions chunk: the failure, where it reports
/// one; else the text, the tool calls, the finish reason and the usage, in
/// this order, each where the chunk carries it.
pub open spec fn openai_events(document: JsonV) -> Seq<EventV> {
    if reports_error(document) {
        seq![EventV::Error(error_text(document.member("error"@)))]
    } else {
        let choice = first_choice(document);
        let delta = child(choice, "delta"@);
        text_events(child(delta, "content"@)) + tools_events(child(delta, "tool_calls"@))
            + finish_events(child(choice, "finish_reason"@)) + openai_usage_events(
            document.member("usage"@),
        )
    }
}

/// The kind of a messages-schema frame: the event type of the transport,
/// or else the member `type` of the payload.
pub open spec fn anthropic_kind(event_type: Option<Seq<char>>, document: JsonV) -> Seq<char> {
    match event_type {
        Some(t) => t,
        None => text_or_empty(document.member("type"@)),
    }
}

/// The events of a `content_block_delta` frame.
pub open spec fn block_delta_events(document: JsonV) -> Seq<EventV> {
    let delta = document.member("delta"@);
    let kind = text_or_empty(child(delta, "type"@));
    if kind == "text_delta"@ {
        text_events(child(delta, "text"@))
    } else if kind == "input_json_delta"@ {
        seq![
            EventV::ToolCallDelta {
                index: int_or_zero(document.member("index"@)),
                id: None,
                name: None,
                arguments: text_or_empty(child(delta, "partial_json"@)),
            },
        ]
    } else {
        Seq::empty()
    }
}

/// The events of a `content_block_start` frame.
pub open spec fn block_start_events(document: JsonV) -> Seq<EventV> {
    let block = document.member("content_block"@);
    if text_or_empty(child(block, "type"@)) == "tool_use"@ {
        seq![
            EventV::ToolCallDelta {
                index: int_or_zero(document.member("index"@)),
                id: text_of(child(block, "id"@)),
                name: text_of(child(block, "name"@)),
                arguments: Seq::empty(),
            },
        ]
    } else {
        Seq::empty()
    }
}

/// The usage that a `message_start` frame gives.
pub open spec fn start_usage(document: JsonV) -> Usage {
    let usage = child(document.member("message"@), "usage"@);
    Usage {
        input_tokens: int_or_zero(child(usage, "input_tokens"@)),
        output_tokens: int_or_zero(child(usage, "output_tokens"@)),
        total_tokens: None,
    }
}

/// The events of a `message_delta` frame: the finish reason, then the usage
/// with the input count given when the answer began.
pub open spec fn message_delta_events(document: JsonV, input_tokens: i64) -> Seq<EventV> {
    let output = int_of(child(document.member("usage"@), "output_tokens"@));
    finish_events(child(document.member("delta"@), "stop_reason"@)) + (match output {
        Some(n) => seq![
            EventV::Usage(Usage { input_tokens, output_tokens: n, total_tokens: None }),
        ],
        None => Seq::empty(),
    })
}

/// The events of one messages-schema frame of kind `kind`. A kind that is
/// not known gives none.
pub open spec fn anthropic_events(kind: Seq<char>, document: JsonV, input_tokens: i64) -> Seq<
    EventV,
> {
    if kind == "content_block_delta"@ {
        block_delta_events(document)
    } else if kind == "content_block_start"@ {
        block_start_events(document)
    } else if kind == "message_start"@ {
        seq![EventV::Usage(start_usage(document))]
    } else if kind == "message_delta"@ {
        message_delta_events(document, input_tokens)
    } else if kind == "error"@ {
        seq![EventV::Error(error_text(document.member("error"@)))]
    } else {
        Seq::empty()
    }
}

/// The events that one decoded frame yields, in the order in which they are
/// queued.
pub open spec fn chunk_events(
    protocol: ProtocolType,
    event_type: Option<Seq<char>>,
    document: JsonV,
    input_tokens: i64,
) -> Seq<EventV> {
    if protocol == ProtocolType::Anthropic {
        anthropic_events(anthropic_kind(event_type, document), document, input_tokens)
    } else {
        openai_events(document)
    }
}

/// The input count to remember after a decoded frame.
pub open spec fn next_input_tokens(
    protocol: ProtocolType,
    event_type: Option<Seq<char>>,
    document: JsonV,
    input_tokens: i64,
) -> i64 {
    if protocol == ProtocolType::Anthropic && anthropic_kind(event_type, document)
        == "message_start"@ {
        start_usage(document).input_tokens
    } else {
        input_tokens
    }
}

/// Whether a frame is the explicit terminator of its family.
pub open spec fn is_terminator(
    protocol: ProtocolType,
    event_type: Option<Seq<char>>,
    data: Seq<char>,
) -> bool {
    if protocol == ProtocolType::Anthropic {
        event_type == Some("message_stop"@)
    } else {
        trimmed(data) == "[DONE]"@
    }
}

/// Whether frames of this event type carry a payload that the family reads.
/// Frames of any other type are ignored.
pub open spec fn is_read(protocol: ProtocolType, event_type: Option<Seq<char>>) -> bool {
    match event_type {
        None => true,
        Some(t) => if protocol == ProtocolType::Anthropic {
            t == "content_block_delta"@ || t == "content_block_start"@ || t == "message_start"@
                || t == "message_delta"@ || t == "error"@
        } else {
            t == "message"@ || t == "error"@
        },
    }
}

/// The failure for a payload that is not JSON, however it might go on.
pub open spec fn malformed_payload() -> GatewayErrorV {
    GatewayErrorV { kind: ErrorKind::Protocol, message: "Malformed stream payload"@ }
}

/// The state after the text `text`, decoded as `decoding`, and the failure
/// where there is one. Text that ends too early is kept for the next frame;
/// text that is not JSON is a failure that leaves the queue as it was; a
/// value empties the buffer and queues its events behind those waiting.
pub open spec fn spec_apply(
    protocol: ProtocolType,
    event_type: Option<Seq<char>>,
    text: Seq<char>,
    decoding: DecodingV,
    state: ParseStateV,
) -> (ParseStateV, Option<GatewayErrorV>) {
    match decoding {
        DecodingV::Truncated(_) => (ParseStateV { buffer: text, ..state }, None),
        DecodingV::Malformed(_) => (
            ParseStateV { buffer: Seq::empty(), ..state },
            Some(malformed_payload()),
        ),
        DecodingV::Value(document) => (
            ParseStateV {
                buffer: Seq::empty(),
                pending: state.pending + chunk_events(
                    protocol,
                    event_type,
                    document,
                    state.input_tokens,
                ),
                finished: state.finished,
                input_tokens: next_input_tokens(
                    protocol,
                    event_type,
                    document,
                    state.input_tokens,
                ),
            },
            None,
        ),
    }
}

/// The state after one frame, and the failure where there is one. After
/// the terminal marker nothing is read; the terminator sets the marker and
/// queues nothing; a frame of a type that is not read, or with blank data,
/// changes nothing; any other frame is decoded together with what the
/// buffer holds.
pub open spec fn spec_parse(
    protocol: ProtocolType,
    event_type: Option<Seq<char>>,
    data: Seq<char>,
    state: ParseStateV,
) -> (ParseStateV, Option<GatewayErrorV>) {
    if state.finished {
        (state, None)
    } else if is_terminator(protocol, event_type, data) {
        (ParseStateV { finished: true, ..state }, None)
    } else if !is_read(protocol, event_type) || is_blank(data) {
        (state, None)
    } else {
        spec_apply(protocol, event_type, state.buffer + data, json_decoding(state.buffer + data), state)
    }
}

/// Member `key` of a value that may be absent.
fn get_child<'a>(parent: Option<&'a Json>, key: &str) -> (found: Option<&'a Json>)
    ensures
        json_opt(found) == child(json_opt(parent), key@),
{
    match parent {
        Some(p) => p.get(key),
        None => None,
    }
}

/// The content of a value that may be absent.
pub open spec fn json_opt(value: Option<&Json>) -> Option<JsonV> {
    match value {
        Some(v) => Some(v@),
        None => None,
    }
}

/// The text of a value, where it is present and a string.
fn get_text(value: Option<&Json>) -> (found: Option<String>)
    ensures
        opt_view(found) == text_of(json_opt(value)),
{
    match value {
        Some(Json::Str(s)) => Some(s.clone()),
        _ => None,
    }
}

/// The text of a value, or no text.
fn get_text_or_empty(value: Option<&Json>) -> (found: String)
    ensures
        found@ == text_or_empty(json_opt(value)),
{
    match get_text(value) {
        Some(s) => s,
        None => String::new(),
    }
}

/// The integer of a value, where it is present and an integer of 64 bits.
fn get_int(value: Option<&Json>) -> (found: Option<i64>)
    ensures
        found == int_of(json_opt(value)),
{
    match value {
        Some(j) => j.as_i64(),
        None => None,
    }
}

/// The integer of a value, or zero.
fn get_int_or_zero(value: Option<&Json>) -> (found: i64)
    ensures
        found == int_or_zero(json_opt(value)),
{
    match get_int(value) {
        Some(i) => i,
        None => 0,
    }
}

/// The message of a failure that a provider reports.
fn get_error_text(report: Option<&Json>) -> (message: String)
    ensures
        message@ == error_text(json_opt(report)),
{
    match get_text(get_child(report, "message")) {
        Some(m) => m,
        None => match get_text(report) {
            Some(m) => m,
            None => owned("unknown error"),
        },
    }
}

/// Queues the event for the text of a delta.
fn queue_text(events: &mut Vec<CanonicalEvent>, text: Option<&Json>)
    ensures
        events_view(final(events)@) == events_view(old(events)@) + text_events(json_opt(text)),
{
    match get_text(text) {
        Some(s) => {
            if s.as_str().unicode_len() > 0 {
                events.push(CanonicalEvent::TextDelta(s));
            }
        },
        None => {},
    }
}

/// Queues the event for the reason an answer ended.
fn queue_finish(events: &mut Vec<CanonicalEvent>, reason: Option<&Json>)
    ensures
        events_view(final(events)@) == events_view(old(events)@) + finish_events(
            json_opt(reason),
        ),
{
    match get_text(reason) {
        Some(r) => {
            events.push(CanonicalEvent::FinishReason(r));
        },
        None => {},
    }
}

/// The event for one entry of `tool_calls`.
fn read_tool_call(item: &Json) -> (event: CanonicalEvent)
    ensures
        event@ == tool_call_event(item@),
{
    let function = item.get("function");
    CanonicalEvent::ToolCallDelta {
        index: get_int_or_zero(item.get("index")),
        id: get_text(item.get("id")),
        name: get_text(get_child(function, "name")),
        arguments: get_text_or_empty(get_child(function, "arguments")),
    }
}

/// Queues the events for the member `tool_calls` of a delta.
fn queue_tools(events: &mut Vec<CanonicalEvent>, tool_calls: Option<&Json>)
    ensures
        events_view(final(events)@) == events_view(old(events)@) + tools_events(
            json_opt(tool_calls),
        ),
{
    let ghost before = events_view(events@);
    match tool_calls {
        Some(Json::Array(items)) => {
            let ghost views = items_view(items@);
            proof {
                lemma_items_view(items@);
            }
            let mut i: usize = 0;
            while i < items.len()
                invariant
                    i <= items.len(),
                    views == items_view(items@),
                    views.len() == items.len(),
                    forall|j: int| 0 <= j < items.len() ==> (#[trigger] views[j]) == items[j]@,
                    events_view(events@) == before + tool_call_events(views.take(i as int)),
                decreases items.len() - i,
            {
                proof {
                    assert(views.take(i + 1).drop_last() =~= views.take(i as int));
                }
                let event = read_tool_call(&items[i]);
                let ghost prev = events_view(events@);
                events.push(event);
                assert(events_view(events@) =~= prev.push(event@));
                i += 1;
            }
            proof {
                assert(views.take(i as int) =~= views);
            }
        },
        _ => {},
    }
}

/// Queues the event for the member `usage` of a chat-completions chunk.
fn queue_openai_usage(events: &mut Vec<CanonicalEvent>, usage: Option<&Json>)
    ensures
        events_view(final(events)@) == events_view(old(events)@) + openai_usage_events(
            json_opt(usage),
        ),
{
    match usage {
        Some(Json::Object(_)) => {
            let counts = Usage {
                input_tokens: get_int_or_zero(get_child(usage, "prompt_tokens")),
                output_tokens: get_int_or_zero(get_child(usage, "completion_tokens")),
                total_tokens: get_int(get_child(usage, "total_tokens")),
            };
            events.push(CanonicalEvent::Usage(counts));
        },
        _ => {},
    }
}

/// The events of one chat-completions chunk.
fn read_openai(document: &Json) -> (events: Vec<CanonicalEvent>)
    ensures
        events_view(events@) == openai_events(document@),
{
    let mut events: Vec<CanonicalEvent> = Vec::new();
    let report = document.get("error");
    let reported = match report {
        Some(Json::Null) => false,
        Some(_) => true,
        None => false,
    };
    if reported {
        events.push(CanonicalEvent::Error(get_error_text(report)));
        return events;
    }
    let choice = match document.get("choices") {
        Some(choices) => choices.at(0),
        None => None,
    };
    let delta = get_child(choice, "delta");
    queue_text(&mut events, get_child(delta, "content"));
    queue_tools(&mut events, get_child(delta, "tool_calls"));
    queue_finish(&mut events, get_child(choice, "finish_reason"));
    queue_openai_usage(&mut events, document.get("usage"));
    events
}

/// The events of one messages-schema frame.
fn read_anthropic(kind: &str, document: &Json, input_tokens: i64) -> (events: Vec<CanonicalEvent>)
    ensures
        events_view(events@) == anthropic_events(kind@, document@, input_tokens),
{
    let mut events: Vec<CanonicalEvent> = Vec::new();
    if str_eq(kind, "content_block_delta") {
        let delta = document.get("delta");
        let delta_kind = get_text_or_empty(get_child(delta, "type"));
        if str_eq(delta_kind.as_str(), "text_delta") {
            queue_text(&mut events, get_child(delta, "text"));
        } else if str_eq(delta_kind.as_str(), "input_json_delta") {
            events.push(
                CanonicalEvent::ToolCallDelta {
                    index: get_int_or_zero(document.get("index")),
                    id: None,
                    name: None,
                    arguments: get_text_or_empty(get_child(delta, "partial_json")),
                },
            );
        }
    } else if str_eq(kind, "content_block_start") {
        let block = document.get("content_block");
        let block_kind = get_text_or_empty(get_child(block, "type"));
        if str_eq(block_kind.as_str(), "tool_use") {
            events.push(
                CanonicalEvent::ToolCallDelta {
                    index: get_int_or_zero(document.get("index")),
                    id: get_text(get_child(block, "id")),
                    name: get_text(get_child(block, "name")),
                    arguments: String::new(),
                },
            );
        }
    } else if str_eq(kind, "message_start") {
        events.push(CanonicalEvent::Usage(read_start_usage(document)));
    } else if str_eq(kind, "message_delta") {
        queue_finish(&mut events, get_child(document.get("delta"), "stop_reason"));
        match get_int(get_child(document.get("usage"), "output_tokens")) {
            Some(n) => {
                events.push(
                    CanonicalEvent::Usage(
                        Usage { input_tokens, output_tokens: n, total_tokens: None },
                    ),
                );
            },
            None => {},
        }
    } else if str_eq(kind, "error") {
        events.push(CanonicalEvent::Error(get_error_text(document.get("error"))));
    }
    events
}

/// The usage that a `message_start` frame gives.
fn read_start_usage(document: &Json) -> (usage: Usage)
    ensures
        usage == start_usage(document@),
{
    let counts = get_child(document.get("message"), "usage");
    Usage {
        input_tokens: get_int_or_zero(get_child(counts, "input_tokens")),
        output_tokens: get_int_or_zero(get_child(counts, "output_tokens")),
        total_tokens: None,
    }
}

/// The kind of a messages-schema frame.
fn read_kind(event_type: &Option<String>, document: &Json) -> (kind: String)
    ensures
        kind@ == anthropic_kind(opt_view(*event_type), document@),
{
    match event_type {
        Some(t) => t.clone(),
        None => get_text_or_empty(document.get("type")),
    }
}

/// The events that one decoded frame yields.
pub fn read_chunk(
    protocol: ProtocolType,
    event_type: &Option<String>,
    document: &Json,
    input_tokens: i64,
) -> (events: Vec<CanonicalEvent>)
    ensures
        events_view(events@) == chunk_events(
            protocol,
            opt_view(*event_type),
            document@,
            input_tokens,
        ),
{
    match protocol {
        ProtocolType::Anthropic => {
            let kind = read_kind(event_type, document);
            read_anthropic(kind.as_str(), document, input_tokens)
        },
        _ => read_openai(document),
    }
}

/// Tells whether a frame is the explicit terminator of its family.
pub fn terminates(protocol: ProtocolType, frame: &StreamFrame) -> (b: bool)
    ensures
        b == is_terminator(protocol, opt_view(frame.event_type), frame.data@),
{
    match protocol {
        ProtocolType::Anthropic => match &frame.event_type {
            Some(t) => str_eq(t.as_str(), "message_stop"),
            None => false,
        },
        _ => {
            let data = trim(frame.data.as_str());
            str_eq(data.as_str(), "[DONE]")
        },
    }
}

/// Tells whether frames of this event type are read.
pub fn reads(protocol: ProtocolType, event_type: &Option<String>) -> (b: bool)
    ensures
        b == is_read(protocol, opt_view(*event_type)),
{
    match event_type {
        None => true,
        Some(t) => match protocol {
            ProtocolType::Anthropic => str_eq(t.as_str(), "content_block_delta") || str_eq(
                t.as_str(),
                "content_block_start",
            ) || str_eq(t.as_str(), "message_start") || str_eq(t.as_str(), "message_delta")
                || str_eq(t.as_str(), "error"),
            _ => str_eq(t.as_str(), "message") || str_eq(t.as_str(), "error"),
        },
    }
}

impl StreamParseState {
    /// The state in which an attempt begins.
    pub fn new() -> (state: StreamParseState)
        ensures
            state@ == fresh_state(),
    {
        let state = StreamParseState {
            buffer: String::new(),
            pending_events: Vec::new(),
            finished: false,
            input_tokens: 0,
        };
        assert(events_view(state.pending_events@) =~= Seq::empty());
        state
    }

    /// Takes the queued events, in order, and leaves the queue empty.
    pub fn drain(&mut self) -> (events: Vec<CanonicalEvent>)
        ensures
            events_view(events@) == old(self)@.pending,
            final(self)@ == (ParseStateV { pending: Seq::empty(), ..old(self)@ }),
    {
        let mut events: Vec<CanonicalEvent> = Vec::new();
        events.append(&mut self.pending_events);
        assert(events_view(self.pending_events@) =~= Seq::empty());
        events
    }
}

impl Default for StreamParseState {
    fn default() -> (state: StreamParseState)
        ensures
            state@ == fresh_state(),
    {
        StreamParseState::new()
    }
}

/// Brings the decoded text of a frame into `state`.
pub fn apply_decoded(
    protocol: ProtocolType,
    event_type: &Option<String>,
    text: String,
    decoded: Decoded,
    state: &mut StreamParseState,
) -> (result: Result<(), GatewayError>)
    ensures
        final(state)@ == spec_apply(protocol, opt_view(*event_type), text@, decoded@, old(state)@).0,
        match result {
            Ok(_) => spec_apply(protocol, opt_view(*event_type), text@, decoded@, old(state)@).1
                is None,
            Err(e) => spec_apply(protocol, opt_view(*event_type), text@, decoded@, old(state)@).1
                == Some(e@),
        },
{
    match decoded {
        Decoded::Truncated(_) => {
            state.buffer = text;
            Ok(())
        },
        Decoded::Malformed(_) => {
            state.buffer = String::new();
            Err(
                GatewayError {
                    kind: ErrorKind::Protocol,
                    message: owned("Malformed stream payload"),
                },
            )
        },
        Decoded::Value(document) => {
            let mut events = read_chunk(protocol, event_type, &document, state.input_tokens);
            let ghost before = events_view(state.pending_events@);
            let ghost more = events_view(events@);
            match protocol {
                ProtocolType::Anthropic => {
                    let kind = read_kind(event_type, &document);
                    if str_eq(kind.as_str(), "message_start") {
                        state.input_tokens = read_start_usage(&document).input_tokens;
                    }
                },
                _ => {},
            }
            state.buffer = String::new();
            state.pending_events.append(&mut events);
            assert(events_view(state.pending_events@) =~= before + more);
            Ok(())
        },
    }
}

/// Consumes one frame: updates `state` and queues the events of the frame
/// behind those that wait. Events are never returned; the caller drains the
/// queue.
pub fn parse(protocol: ProtocolType, frame: &StreamFrame, state: &mut StreamParseState) -> (result:
    Result<(), GatewayError>)
    ensures
        final(state)@ == spec_parse(
            protocol,
            opt_view(frame.event_type),
            frame.data@,
            old(state)@,
        ).0,
        match result {
            Ok(_) => spec_parse(protocol, opt_view(frame.event_type), frame.data@, old(state)@).1
                is None,
            Err(e) => spec_parse(protocol, opt_view(frame.event_type), frame.data@, old(state)@).1
                == Some(e@),
        },
{
    if state.finished {
        return Ok(());
    }
    if terminates(protocol, frame) {
        state.finished = true;
        return Ok(());
    }
    if !reads(protocol, &frame.event_type) || blank(frame.data.as_str()) {
        return Ok(());
    }
    let text = concat2(state.buffer.as_str(), frame.data.as_str());
    let decoded = decode(text.as_str());
    apply_decoded(protocol, &frame.event_type, text, decoded, state)
}

/// The queue keeps the order of arrival: after two frames that are both
/// read, it holds what waited, then the events of the first frame, then the
/// events of the second, whatever each frame yields.
pub proof fn law_frames_queue_in_order(
    protocol: ProtocolType,
    first: StreamFrame,
    second: StreamFrame,
    state: ParseStateV,
)
    requires
        json_decoding(state.buffer + first.data@) is Value,
        json_decoding(second.data@) is Value,
        !state.finished,
        is_read(protocol, opt_view(first.event_type)) && !is_blank(first.data@),
        is_read(protocol, opt_view(second.event_type)) && !is_blank(second.data@),
        !is_terminator(protocol, opt_view(first.event_type), first.data@),
        !is_terminator(protocol, opt_view(second.event_type), second.data@),
    ensures
        ({
            let a = json_decoding(state.buffer + first.data@)->Value_0;
            let b = json_decoding(second.data@)->Value_0;
            let mid = spec_parse(protocol, opt_view(first.event_type), first.data@, state).0;
            let end = spec_parse(protocol, opt_view(second.event_type), second.data@, mid).0;
            end.pending == state.pending + chunk_events(
                protocol,
                opt_view(first.event_type),
                a,
                state.input_tokens,
            ) + chunk_events(protocol, opt_view(second.event_type), b, mid.input_tokens)
        }),
{
    let mid = spec_parse(protocol, opt_view(first.event_type), first.data@, state).0;
    assert(mid.buffer + second.data@ =~= second.data@);
}

/// A frame never takes an event out of the queue nor changes one that
/// waits: what waited before is a prefix of what waits after, also where the
/// frame is a failure.
pub proof fn law_parse_only_appends(
    protocol: ProtocolType,
    event_type: Option<Seq<char>>,
    data: Seq<char>,
    state: ParseStateV,
)
    ensures
        state.pending.is_prefix_of(spec_parse(protocol, event_type, data, state).0.pending),
        spec_parse(protocol, event_type, data, state).1 is Some ==> spec_parse(
            protocol,
            event_type,
            data,
            state,
        ).0.pending == state.pending,
{
}

} // verus!
