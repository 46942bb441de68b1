//! The records of a trace and the commands that carry them to the writer.

use vstd::prelude::*;
use crate::json::{members_view, Fields, Json, JsonV, Member};
use crate::text::{opt_view, owned};

verus! {

/// One traced operation. Times are milliseconds since the Unix epoch.
#[derive(Debug, PartialEq)]
pub struct Trace {
    pub id: String,
    pub started_at: i64,
    pub ended_at: Option<i64>,
    pub metadata: Option<Json>,
}

/// One span of a trace. `attributes` binds each key once.
#[derive(Debug, PartialEq)]
pub struct Span {
    pub id: String,
    pub trace_id: String,
    pub parent_span_id: Option<String>,
    pub name: String,
    pub started_at: i64,
    pub ended_at: Option<i64>,
    pub attributes: Vec<Member>,
}

/// Something that happened during a span.
#[derive(Debug, PartialEq)]
pub struct SpanEvent {
    pub id: String,
    pub span_id: String,
    pub timestamp: i64,
    pub event_type: String,
    pub payload: Option<Json>,
}

/// What the writer is asked to do.
#[derive(Debug, PartialEq)]
pub enum TraceCommand {
    CreateTrace(Trace),
    CreateSpan(Span),
    CloseSpan { span_id: String, ended_at: i64 },
    AddEvent(SpanEvent),
    Flush,
    Shutdown,
}

/// The content of a span.
pub ghost struct SpanV {
    pub id: Seq<char>,
    pub trace_id: Seq<char>,
    pub parent_span_id: Option<Seq<char>>,
    pub name: Seq<char>,
    pub started_at: i64,
    pub ended_at: Option<i64>,
    pub attributes: Fields,
}

/// The content of a span event.
pub ghost struct SpanEventV {
    pub id: Seq<char>,
    pub span_id: Seq<char>,
    pub timestamp: i64,
    pub event_type: Seq<char>,
    pub payload: Option<JsonV>,
}

/// The content of a trace.
pub ghost struct TraceV {
    pub id: Seq<char>,
    pub started_at: i64,
    pub ended_at: Option<i64>,
    pub metadata: Option<JsonV>,
}

/// The content of a command.
pub ghost enum TraceCommandV {
    CreateTrace(TraceV),
    CreateSpan(SpanV),
    CloseSpan { span_id: Seq<char>, ended_at: i64 },
    AddEvent(SpanEventV),
    Flush,
    Shutdown,
}

/// The content of an optional JSON value.
pub open spec fn opt_json_view(value: Option<Json>) -> Option<JsonV> {
    match value {
        Some(v) => Some(v@),
        None => None,
    }
}

impl View for Trace {
    type V = TraceV;

    open spec fn view(&self) -> TraceV {
        TraceV {
            id: self.id@,
            started_at: self.started_at,
            ended_at: self.ended_at,
            metadata: opt_json_view(self.metadata),
        }
    }
}

impl View for Span {
    type V = SpanV;

    open spec fn view(&self) -> SpanV {
        SpanV {
            id: self.id@,
            trace_id: self.trace_id@,
            parent_span_id: opt_view(self.parent_span_id),
            name: self.name@,
            started_at: self.started_at,
            ended_at: self.ended_at,
            attributes: members_view(self.attributes@),
        }
    }
}

impl View for SpanEvent {
    type V = SpanEventV;

    open spec fn view(&self) -> SpanEventV {
        SpanEventV {
            id: self.id@,
            span_id: self.span_id@,
            timestamp: self.timestamp,
            event_type: self.event_type@,
            payload: opt_json_view(self.payload),
        }
    }
}

impl View for TraceCommand {
    type V = TraceCommandV;

    open spec fn view(&self) -> TraceCommandV {
        match self {
            TraceCommand::CreateTrace(t) => TraceCommandV::CreateTrace(t@),
            TraceCommand::CreateSpan(s) => TraceCommandV::CreateSpan(s@),
            TraceCommand::CloseSpan { span_id, ended_at } => TraceCommandV::CloseSpan {
                span_id: span_id@,
                ended_at: *ended_at,
            },
            TraceCommand::AddEvent(e) => TraceCommandV::AddEvent(e@),
            TraceCommand::Flush => TraceCommandV::Flush,
            TraceCommand::Shutdown => TraceCommandV::Shutdown,
        }
    }
}

/// How many commands the writer stores at once.
pub const BATCH_SIZE: usize = 100;

/// How long the writer waits for a batch to fill, in milliseconds.
pub const BATCH_TIMEOUT_MS: u64 = 50;

/// How many commands may wait for the writer.
pub const CHANNEL_CAPACITY: usize = 10000;

/// Whether `bits` is the pattern of a finite double: its exponent is not
/// all ones.
pub open spec fn is_finite_bits(bits: u64) -> bool {
    (bits >> 52) & 0x7ff != 0x7ff
}

/// The attribute for a real number given by the bits of its double: the
/// number where it is finite, `null` where it is not.
pub open spec fn spec_float_attr(bits: u64) -> JsonV {
    if is_finite_bits(bits) {
        JsonV::Real(bits)
    } else {
        JsonV::Null
    }
}

/// A text attribute.
pub fn string_attr(value: &str) -> (attr: Json)
    ensures
        attr@ == JsonV::Str(value@),
{
    Json::Str(owned(value))
}

/// An integer attribute.
pub fn int_attr(value: i64) -> (attr: Json)
    ensures
        attr@ == JsonV::Int(value as int),
{
    Json::Int(value)
}

/// A real attribute, from the bits of a double.
pub fn float_attr(bits: u64) -> (attr: Json)
    ensures
        attr@ == spec_float_attr(bits),
{
    if (bits >> 52) & 0x7ff != 0x7ff {
        Json::Real(bits)
    } else {
        Json::Null
    }
}

/// A truth-value attribute.
pub fn bool_attr(value: bool) -> (attr: Json)
    ensures
        attr@ == JsonV::Bool(value),
{
    Json::Bool(value)
}

/// A structured attribute.
pub fn json_attr(value: Json) -> (attr: Json)
    ensures
        attr@ == value@,
{
    value
}

} // verus!
