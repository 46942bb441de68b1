//! The life of a span: started once, closed at most once, whoever asks.

use vstd::prelude::*;
use crate::json::{fields_set, members_view, set_member, Fields, Json, JsonV, Member};
use crate::text::{opt_view, owned};
use crate::tracing::types::{
    opt_json_view, Span, SpanEvent, SpanEventV, SpanV, Trace, TraceCommand, TraceCommandV, TraceV,
};

verus! {

/// `chrono::Utc::now` followed by `timestamp_millis`: the clock, in
/// milliseconds since the Unix epoch. Nothing is promised of the number. The
/// outside call stops the program where the system clock stands before 1970.
#[verifier::external_body]
fn now_millis() -> (now: i64) {
    chrono::Utc::now().timestamp_millis()
}

/// A span that is open or closed. Closing it twice closes it once.
#[derive(Debug, PartialEq)]
pub struct TracingSpan {
    span_id: String,
    trace_id: String,
    closed: bool,
}

/// What goes into the root span of a trace.
#[derive(Debug, PartialEq)]
pub struct TraceBuilder {
    trace_id: String,
    root_span_name: String,
    root_span_attributes: Vec<Member>,
}

/// The command that creates a span which has not ended.
pub open spec fn create_span(
    span_id: Seq<char>,
    trace_id: Seq<char>,
    parent_span_id: Option<Seq<char>>,
    name: Seq<char>,
    attributes: Fields,
    started_at: i64,
) -> TraceCommandV {
    TraceCommandV::CreateSpan(
        SpanV {
            id: span_id,
            trace_id,
            parent_span_id,
            name,
            started_at,
            ended_at: None,
            attributes,
        },
    )
}

impl TracingSpan {
    /// The id of this span.
    pub closed spec fn id(&self) -> Seq<char> {
        self.span_id@
    }

    /// The id of the trace that this span belongs to.
    pub closed spec fn trace(&self) -> Seq<char> {
        self.trace_id@
    }

    /// Whether this span has been closed.
    pub closed spec fn is_closed(&self) -> bool {
        self.closed
    }

    /// Starts a span: the open span, and the command that creates it.
    pub fn new(
        span_id: String,
        trace_id: String,
        parent_span_id: Option<String>,
        name: String,
        attributes: Vec<Member>,
        started_at: i64,
    ) -> (started: (TracingSpan, TraceCommand))
        ensures
            started.0.id() == span_id@,
            started.0.trace() == trace_id@,
            !started.0.is_closed(),
            started.1@ == create_span(
                span_id@,
                trace_id@,
                opt_view(parent_span_id),
                name@,
                members_view(attributes@),
                started_at,
            ),
    {
        let span = Span {
            id: span_id.clone(),
            trace_id: trace_id.clone(),
            parent_span_id,
            name,
            started_at,
            ended_at: None,
            attributes,
        };
        (TracingSpan { span_id, trace_id, closed: false }, TraceCommand::CreateSpan(span))
    }

    /// The id of this span.
    pub fn span_id(&self) -> (id: &str)
        ensures
            id@ == self.id(),
    {
        self.span_id.as_str()
    }

    /// The id of the trace that this span belongs to.
    pub fn trace_id(&self) -> (id: &str)
        ensures
            id@ == self.trace(),
    {
        self.trace_id.as_str()
    }

    /// Tells whether this span has been closed.
    pub fn closed(&self) -> (closed: bool)
        ensures
            closed == self.is_closed(),
    {
        self.closed
    }

    /// The command that adds an event to this span.
    pub fn add_event(
        &self,
        event_id: String,
        event_type: &str,
        payload: Option<Json>,
        timestamp: i64,
    ) -> (command: TraceCommand)
        ensures
            command@ == TraceCommandV::AddEvent(
                SpanEventV {
                    id: event_id@,
                    span_id: self.id(),
                    timestamp,
                    event_type: event_type@,
                    payload: opt_json_view(payload),
                },
            ),
    {
        TraceCommand::AddEvent(
            SpanEvent {
                id: event_id,
                span_id: self.span_id.clone(),
                timestamp,
                event_type: owned(event_type),
                payload,
            },
        )
    }

    /// Starts a span under this one, in the same trace.
    pub fn create_child(
        &self,
        span_id: String,
        name: String,
        attributes: Vec<Member>,
        started_at: i64,
    ) -> (started: (TracingSpan, TraceCommand))
        ensures
            started.0.id() == span_id@,
            started.0.trace() == self.trace(),
            !started.0.is_closed(),
            started.1@ == create_span(
                span_id@,
                self.trace(),
                Some(self.id()),
                name@,
                members_view(attributes@),
                started_at,
            ),
    {
        TracingSpan::new(
            span_id,
            self.trace_id.clone(),
            Some(self.span_id.clone()),
            name,
            attributes,
            started_at,
        )
    }

    /// Closes this span at `ended_at`: the command that ends it, unless it
    /// was closed before, in which case nothing is to be done.
    pub fn close_at(&mut self, ended_at: i64) -> (command: Option<TraceCommand>)
        ensures
            final(self).is_closed(),
            final(self).id() == old(self).id(),
            final(self).trace() == old(self).trace(),
            match command {
                Some(c) => !old(self).is_closed() && c@ == (TraceCommandV::CloseSpan {
                    span_id: old(self).id(),
                    ended_at,
                }),
                None => old(self).is_closed(),
            },
    {
        if self.closed {
            None
        } else {
            self.closed = true;
            Some(TraceCommand::CloseSpan { span_id: self.span_id.clone(), ended_at })
        }
    }

    /// Closes this span now, by the clock.
    pub fn close(&mut self) -> (command: Option<TraceCommand>)
        ensures
            final(self).is_closed(),
            final(self).id() == old(self).id(),
            final(self).trace() == old(self).trace(),
            match command {
                Some(c) => !old(self).is_closed() && c@ is CloseSpan && c@->CloseSpan_span_id
                    == old(self).id(),
                None => old(self).is_closed(),
            },
    {
        if self.closed {
            None
        } else {
            let now = now_millis();
            self.close_at(now)
        }
    }
}

impl TraceBuilder {
    /// The id of the trace being built.
    pub closed spec fn trace(&self) -> Seq<char> {
        self.trace_id@
    }

    /// The name of the root span.
    pub closed spec fn root_name(&self) -> Seq<char> {
        self.root_span_name@
    }

    /// The attributes of the root span.
    pub closed spec fn root_attributes(&self) -> Fields {
        members_view(self.root_span_attributes@)
    }

    /// Starts a trace: a builder for its root span, and the command that
    /// creates the trace.
    pub fn new(trace_id: String, started_at: i64, root_span_name: &str) -> (started: (
        TraceBuilder,
        TraceCommand,
    ))
        ensures
            started.0.trace() == trace_id@,
            started.0.root_name() == root_span_name@,
            started.0.root_attributes() == Seq::<(Seq<char>, JsonV)>::empty(),
            started.1@ == TraceCommandV::CreateTrace(
                TraceV { id: trace_id@, started_at, ended_at: None, metadata: None },
            ),
    {
        let trace = Trace { id: trace_id.clone(), started_at, ended_at: None, metadata: None };
        (Self::with_trace_id(trace_id, root_span_name), TraceCommand::CreateTrace(trace))
    }

    /// A builder for the root span of the trace `trace_id`, which exists.
    pub fn with_trace_id(trace_id: String, root_span_name: &str) -> (builder: TraceBuilder)
        ensures
            builder.trace() == trace_id@,
            builder.root_name() == root_span_name@,
            builder.root_attributes() == Seq::<(Seq<char>, JsonV)>::empty(),
    {
        TraceBuilder {
            trace_id,
            root_span_name: owned(root_span_name),
            root_span_attributes: Vec::new(),
        }
    }

    /// Binds `key` to `value` among the attributes of the root span.
    pub fn with_attribute(self, key: &str, value: Json) -> (builder: TraceBuilder)
        ensures
            builder.trace() == self.trace(),
            builder.root_name() == self.root_name(),
            builder.root_attributes() == fields_set(self.root_attributes(), key@, value@),
    {
        let mut builder = self;
        set_member(&mut builder.root_span_attributes, key, value);
        builder
    }

    /// Starts the root span.
    pub fn build(self, span_id: String, started_at: i64) -> (started: (TracingSpan, TraceCommand))
        ensures
            started.0.id() == span_id@,
            started.0.trace() == self.trace(),
            !started.0.is_closed(),
            started.1@ == create_span(
                span_id@,
                self.trace(),
                None,
                self.root_name(),
                self.root_attributes(),
                started_at,
            ),
    {
        TracingSpan::new(
            span_id,
            self.trace_id,
            None,
            self.root_span_name,
            self.root_span_attributes,
            started_at,
        )
    }

    /// The id of the trace being built.
    pub fn trace_id(&self) -> (id: &str)
        ensures
            id@ == self.trace(),
    {
        self.trace_id.as_str()
    }
}

} // verus!
