//! The stream collector: the events of a run gathered into one result,
//! under one deadline counted from the start of the collection.

use vstd::prelude::*;
use vstd::string::*;
use crate::stream_runner::{
    spec_start, spec_step, ActionV, AttemptPlan, AttemptPlanV, Phase, RunErrorV, RunV, RunnerAction,
    StreamRun, TransportEvent, TransportEventV, lemma_step_keeps_wf, plans_view, run_wf,
};
use crate::text::{clone_opt, opt_view, owned};
use crate::types::{
    events_view, CanonicalEvent, ErrorKind, EventV, GatewayError, GatewayErrorV, Message,
    MessageContent, StreamTextRequest, Usage,
};

verus! {

/// What a collection gives: the text deltas joined in the order of their
/// arrival, the last usage and the last finish reason.
#[derive(Debug, Clone, PartialEq)]
pub struct CollectedText {
    pub text: String,
    pub usage: Option<Usage>,
    pub finish_reason: Option<String>,
}

/// The content of a collected result.
pub ghost struct CollectedV {
    pub text: Seq<char>,
    pub usage: Option<Usage>,
    pub finish_reason: Option<Seq<char>>,
}

impl View for CollectedText {
    type V = CollectedV;

    open spec fn view(&self) -> CollectedV {
        CollectedV {
            text: self.text@,
            usage: self.usage,
            finish_reason: opt_view(self.finish_reason),
        }
    }
}

/// The accumulator of one collection. It is made anew for each collection
/// and holds nothing of another.
#[derive(Debug, Clone, PartialEq)]
pub struct StreamCollector {
    text: String,
    usage: Option<Usage>,
    finish_reason: Option<String>,
    timeout_ms: u64,
    result: Option<Result<CollectedText, GatewayError>>,
}

/// The content of a collector: what it has gathered, its deadline, and its
/// result once it has one.
pub ghost struct CollectorV {
    pub text: Seq<char>,
    pub usage: Option<Usage>,
    pub finish_reason: Option<Seq<char>>,
    pub timeout_ms: u64,
    pub result: Option<Result<CollectedV, GatewayErrorV>>,
}

/// The content of a result.
pub open spec fn result_view(result: Option<Result<CollectedText, GatewayError>>) -> Option<
    Result<CollectedV, GatewayErrorV>,
> {
    match result {
        Some(Ok(c)) => Some(Ok(c@)),
        Some(Err(e)) => Some(Err(e@)),
        None => None,
    }
}

impl View for StreamCollector {
    type V = CollectorV;

    closed spec fn view(&self) -> CollectorV {
        CollectorV {
            text: self.text@,
            usage: self.usage,
            finish_reason: opt_view(self.finish_reason),
            timeout_ms: self.timeout_ms,
            result: result_view(self.result),
        }
    }
}

/// The collector at the start of a collection.
pub open spec fn fresh_collector(timeout_ms: u64) -> CollectorV {
    CollectorV {
        text: Seq::empty(),
        usage: None,
        finish_reason: None,
        timeout_ms,
        result: None,
    }
}

/// The failure of a collection whose deadline passed.
pub open spec fn timed_out() -> GatewayErrorV {
    GatewayErrorV { kind: ErrorKind::Timeout, message: "Stream collection timed out"@ }
}

/// The collector after one event: text is joined to the text, a usage and a
/// finish reason replace the ones before, a tool call is passed over, and a
/// failure that the provider reports ends the collection.
pub open spec fn accept(collector: CollectorV, event: EventV) -> CollectorV {
    if collector.result is Some {
        collector
    } else {
        match event {
            EventV::TextDelta(text) => CollectorV { text: collector.text + text, ..collector },
            EventV::Usage(usage) => CollectorV { usage: Some(usage), ..collector },
            EventV::FinishReason(reason) => CollectorV {
                finish_reason: Some(reason),
                ..collector
            },
            EventV::ToolCallDelta { .. } => collector,
            EventV::Error(message) => CollectorV {
                result: Some(Err(GatewayErrorV { kind: ErrorKind::Protocol, message })),
                ..collector
            },
        }
    }
}

/// The collector after a sequence of events, in order.
pub open spec fn absorb(collector: CollectorV, events: Seq<EventV>) -> CollectorV
    decreases events.len(),
{
    if events.len() == 0 {
        collector
    } else {
        accept(absorb(collector, events.drop_last()), events.last())
    }
}

/// What has been gathered, as a result.
pub open spec fn gathered(collector: CollectorV) -> CollectedV {
    CollectedV {
        text: collector.text,
        usage: collector.usage,
        finish_reason: collector.finish_reason,
    }
}

/// The collector after the outcome of the run: a completed run gives what
/// was gathered; a failed run gives its failure.
pub open spec fn conclude(collector: CollectorV, outcome: Result<(), RunErrorV>) -> CollectorV {
    if collector.result is Some {
        collector
    } else {
        match outcome {
            Ok(_) => CollectorV { result: Some(Ok(gathered(collector))), ..collector },
            Err(e) => CollectorV {
                result: Some(Err(GatewayErrorV { kind: e.kind, message: e.message })),
                ..collector
            },
        }
    }
}

/// The collector after an action of the run, observed `elapsed_ms` after the
/// collection began. Once there is a result nothing changes it. At or past
/// the deadline the result is the timeout, with nothing of what was
/// gathered. Before the deadline the events of the action are absorbed and
/// the outcome of a finished run concludes the collection.
pub open spec fn spec_observe(collector: CollectorV, elapsed_ms: u64, action: ActionV) -> CollectorV {
    if collector.result is Some {
        collector
    } else if elapsed_ms >= collector.timeout_ms {
        CollectorV {
            text: Seq::empty(),
            usage: None,
            finish_reason: None,
            timeout_ms: collector.timeout_ms,
            result: Some(Err(timed_out())),
        }
    } else {
        match action {
            ActionV::Forward { events } => absorb(collector, events),
            ActionV::Finish { events, outcome } => conclude(absorb(collector, events), outcome),
            _ => collector,
        }
    }
}

/// Absorbing events leaves the deadline as it was.
pub proof fn lemma_absorb_keeps_deadline(collector: CollectorV, events: Seq<EventV>)
    ensures
        absorb(collector, events).timeout_ms == collector.timeout_ms,
    decreases events.len(),
{
    if events.len() > 0 {
        lemma_absorb_keeps_deadline(collector, events.drop_last());
    }
}

/// Observing an action leaves the deadline as it was.
pub proof fn lemma_observe_keeps_deadline(collector: CollectorV, elapsed_ms: u64, action: ActionV)
    ensures
        spec_observe(collector, elapsed_ms, action).timeout_ms == collector.timeout_ms,
{
    match action {
        ActionV::Forward { events } => lemma_absorb_keeps_deadline(collector, events),
        ActionV::Finish { events, .. } => lemma_absorb_keeps_deadline(collector, events),
        _ => {},
    }
}

/// Whether the run is to be cancelled after an action was observed: the
/// collection ended on this action although the run did not.
pub open spec fn cancels(collector: CollectorV, elapsed_ms: u64, action: ActionV) -> bool {
    collector.result is None && spec_observe(collector, elapsed_ms, action).result is Some && !(
    action is Finish && elapsed_ms < collector.timeout_ms)
}

/// The request for a completion of `prompt` by `model_identifier`: one user
/// message, streamed, with nothing else set.
pub open spec fn is_completion_request(
    request: StreamTextRequest,
    model_identifier: Seq<char>,
    prompt: Seq<char>,
) -> bool {
    &&& request.model@ == model_identifier
    &&& request.messages@.len() == 1
    &&& match request.messages@[0] {
        Message::User { content, provider_options } => provider_options is None && match content {
            MessageContent::Text(text) => text@ == prompt,
            _ => false,
        },
        _ => false,
    }
    &&& request.tools is None
    &&& request.stream == Some(true)
    &&& request.temperature is None
    &&& request.max_tokens is None
    &&& request.top_p is None
    &&& request.top_k is None
    &&& request.provider_options is None
    &&& request.request_id is None
    &&& request.trace_context is None
}

impl StreamCollector {
    /// A collector with a deadline `timeout_ms` after its start.
    pub fn new(timeout_ms: u64) -> (collector: StreamCollector)
        ensures
            collector@ == fresh_collector(timeout_ms),
    {
        StreamCollector {
            text: String::new(),
            usage: None,
            finish_reason: None,
            timeout_ms,
            result: None,
        }
    }

    /// The request for a completion of `prompt` by `model_identifier`.
    pub fn create_completion_request(model_identifier: String, prompt: String) -> (request:
        StreamTextRequest)
        ensures
            is_completion_request(request, model_identifier@, prompt@),
    {
        let mut messages: Vec<Message> = Vec::new();
        messages.push(
            Message::User { content: MessageContent::Text(prompt), provider_options: None },
        );
        StreamTextRequest {
            model: model_identifier,
            messages,
            tools: None,
            stream: Some(true),
            temperature: None,
            max_tokens: None,
            top_p: None,
            top_k: None,
            provider_options: None,
            request_id: None,
            trace_context: None,
        }
    }

    /// Takes one event in.
    fn accept(&mut self, event: &CanonicalEvent)
        ensures
            final(self)@ == accept(old(self)@, event@),
    {
        if self.result.is_some() {
            return ;
        }
        match event {
            CanonicalEvent::TextDelta(text) => {
                self.text.append(text.as_str());
            },
            CanonicalEvent::Usage(usage) => {
                self.usage = Some(*usage);
            },
            CanonicalEvent::FinishReason(reason) => {
                self.finish_reason = Some(reason.clone());
            },
            CanonicalEvent::ToolCallDelta { .. } => {},
            CanonicalEvent::Error(message) => {
                self.result = Some(
                    Err(GatewayError { kind: ErrorKind::Protocol, message: message.clone() }),
                );
            },
        }
    }

    /// Takes a sequence of events in, in order.
    fn absorb(&mut self, events: &Vec<CanonicalEvent>)
        ensures
            final(self)@ == absorb(old(self)@, events_view(events@)),
    {
        let ghost views = events_view(events@);
        let mut i: usize = 0;
        while i < events.len()
            invariant
                i <= events.len(),
                views == events_view(events@),
                self@ == absorb(old(self)@, views.take(i as int)),
            decreases events.len() - i,
        {
            proof {
                assert(views.take(i + 1).drop_last() =~= views.take(i as int));
            }
            self.accept(&events[i]);
            i += 1;
        }
        proof {
            assert(views.take(i as int) =~= views);
        }
    }

    /// Observes an action of the run, `elapsed_ms` after the collection
    /// began, and tells whether the run is to be cancelled.
    pub fn observe(&mut self, elapsed_ms: u64, action: &RunnerAction) -> (cancel: bool)
        ensures
            final(self)@ == spec_observe(old(self)@, elapsed_ms, action@),
            cancel == cancels(old(self)@, elapsed_ms, action@),
    {
        if self.result.is_some() {
            return false;
        }
        if elapsed_ms >= self.timeout_ms {
            self.text = String::new();
            self.usage = None;
            self.finish_reason = None;
            self.result = Some(
                Err(
                    GatewayError {
                        kind: ErrorKind::Timeout,
                        message: owned("Stream collection timed out"),
                    },
                ),
            );
            return true;
        }
        match action {
            RunnerAction::Forward { events } => {
                self.absorb(events);
                self.result.is_some()
            },
            RunnerAction::Finish { events, outcome } => {
                self.absorb(events);
                if self.result.is_none() {
                    match outcome {
                        Ok(_) => {
                            self.result = Some(
                                Ok(
                                    CollectedText {
                                        text: self.text.clone(),
                                        usage: self.usage,
                                        finish_reason: clone_opt(&self.finish_reason),
                                    },
                                ),
                            );
                        },
                        Err(e) => {
                            self.result = Some(
                                Err(GatewayError { kind: e.kind, message: e.message.clone() }),
                            );
                        },
                    }
                }
                false
            },
            _ => false,
        }
    }

    /// Tells whether the collection has a result.
    pub fn is_done(&self) -> (done: bool)
        ensures
            done == (self@.result is Some),
    {
        self.result.is_some()
    }

    /// The result of the collection, where it has one.
    pub fn into_result(self) -> (result: Option<Result<CollectedText, GatewayError>>)
        ensures
            result_view(result) == self@.result,
    {
        self.result
    }
}

/// One observation of the transport, with the time at which it was made,
/// in milliseconds since the collection began.
#[derive(Debug, Clone, PartialEq)]
pub struct TimedEvent {
    pub elapsed_ms: u64,
    pub event: TransportEvent,
}

/// The contents of a timed script.
pub open spec fn timed_view(script: Seq<TimedEvent>) -> Seq<(u64, TransportEventV)> {
    script.map_values(|t: TimedEvent| (t.elapsed_ms, t.event@))
}

/// A run and its collector after one observation of the transport. Once
/// the collection has a result nothing is handed to the run any more. At or
/// past the deadline the run is cancelled instead of being handed the
/// observation. Before the deadline the run takes its step and the
/// collector observes the action; where that ends the collection although
/// the run goes on, the run is cancelled.
pub open spec fn collect_step(run: RunV, collector: CollectorV, elapsed_ms: u64, event: TransportEventV) -> (
    RunV,
    CollectorV,
) {
    if collector.result is Some {
        (run, collector)
    } else if elapsed_ms >= collector.timeout_ms {
        (
            spec_step(run, TransportEventV::Cancelled).0,
            spec_observe(collector, elapsed_ms, ActionV::Wait),
        )
    } else {
        let (stepped, action) = spec_step(run, event);
        let observed = spec_observe(collector, elapsed_ms, action);
        if cancels(collector, elapsed_ms, action) {
            (spec_step(stepped, TransportEventV::Cancelled).0, observed)
        } else {
            (stepped, observed)
        }
    }
}

/// A run and its collector after a timed script.
pub open spec fn collect_run(run: RunV, collector: CollectorV, script: Seq<(u64, TransportEventV)>) -> (
    RunV,
    CollectorV,
)
    decreases script.len(),
{
    if script.len() == 0 {
        (run, collector)
    } else {
        let (r, c) = collect_run(run, collector, script.drop_last());
        collect_step(r, c, script.last().0, script.last().1)
    }
}

/// The run and the collector with which a collection over `plans` begins.
pub open spec fn collect_start(plans: Seq<AttemptPlanV>, timeout_ms: u64) -> (RunV, CollectorV) {
    let (run, begin) = spec_start(plans);
    (run, spec_observe(fresh_collector(timeout_ms), 0, begin))
}

/// What a collection over a recorded script gave.
#[derive(Debug, PartialEq)]
pub struct Collection {
    /// The result, where the script got that far.
    pub result: Option<Result<CollectedText, GatewayError>>,
    /// Where the run stood at the end.
    pub phase: Phase,
}

/// Collects the answer of a run over `plans` from a recorded script, under
/// a deadline `timeout_ms` after the start.
pub fn collect_with_runner(plans: Vec<AttemptPlan>, script: &Vec<TimedEvent>, timeout_ms: u64) -> (collection:
    Collection)
    ensures
        ({
            let (run, collector) = collect_start(plans_view(plans@), timeout_ms);
            let (ended, collected) = collect_run(run, collector, timed_view(script@));
            &&& result_view(collection.result) == collected.result
            &&& collection.phase == ended.phase
        }),
{
    let ghost views = timed_view(script@);
    let ghost begun = collect_start(plans_view(plans@), timeout_ms);
    let (mut run, first) = StreamRun::start(plans);
    let mut collector = StreamCollector::new(timeout_ms);
    proof {
        lemma_observe_keeps_deadline(collector@, 0, first@);
    }
    collector.observe(0, &first);
    let mut i: usize = 0;
    while i < script.len()
        invariant
            i <= script.len(),
            views == timed_view(script@),
            run_wf(run@),
            collector@.timeout_ms == timeout_ms,
            collect_run(begun.0, begun.1, views.take(i as int)) == (run@, collector@),
        decreases script.len() - i,
    {
        proof {
            assert(views.take(i + 1).drop_last() =~= views.take(i as int));
        }
        let timed = &script[i];
        if !collector.is_done() {
            if timed.elapsed_ms >= timeout_ms {
                run.step(&TransportEvent::Cancelled);
                proof {
                    lemma_observe_keeps_deadline(collector@, timed.elapsed_ms, ActionV::Wait);
                }
                collector.observe(timed.elapsed_ms, &RunnerAction::Wait);
            } else {
                let action = run.step(&timed.event);
                proof {
                    lemma_observe_keeps_deadline(collector@, timed.elapsed_ms, action@);
                }
                if collector.observe(timed.elapsed_ms, &action) {
                    run.step(&TransportEvent::Cancelled);
                }
            }
        }
        i += 1;
    }
    proof {
        assert(views.take(i as int) =~= views);
    }
    Collection { result: collector.into_result(), phase: run.phase() }
}

/// Once the collection has a result, no observation changes the run or
/// the collector: nothing is processed after the result.
pub proof fn law_nothing_after_result(
    run: RunV,
    collector: CollectorV,
    script: Seq<(u64, TransportEventV)>,
)
    requires
        collector.result is Some,
    ensures
        collect_run(run, collector, script) == (run, collector),
    decreases script.len(),
{
    if script.len() > 0 {
        law_nothing_after_result(run, collector, script.drop_last());
    }
}

/// A collection that has no result when an observation is made at or past
/// the deadline ends in the timeout, with nothing of what was gathered, and
/// cancels the run where it is still at work. What the script holds after
/// that observation changes nothing.
pub proof fn law_deadline_gives_timeout(
    run: RunV,
    collector: CollectorV,
    before: Seq<(u64, TransportEventV)>,
    elapsed_ms: u64,
    event: TransportEventV,
    after: Seq<(u64, TransportEventV)>,
)
    requires
        collect_run(run, collector, before).1.result is None,
        elapsed_ms >= collector.timeout_ms,
    ensures
        ({
            let waiting = collect_run(run, collector, before);
            let ended = collect_run(run, collector, before + seq![(elapsed_ms, event)] + after);
            &&& ended.1.result == Some(Err::<CollectedV, GatewayErrorV>(timed_out()))
            &&& ended.1.text.len() == 0
            &&& crate::stream_runner::is_live(waiting.0.phase) ==> ended.0.phase == Phase::Cancelled
            &&& !crate::stream_runner::is_live(waiting.0.phase) ==> ended.0 == waiting.0
        }),
{
    let waiting = collect_run(run, collector, before);
    lemma_collect_keeps_deadline(run, collector, before);
    let at = before + seq![(elapsed_ms, event)];
    assert(at.drop_last() =~= before);
    let timed = collect_run(run, collector, at);
    assert(timed == collect_step(waiting.0, waiting.1, elapsed_ms, event));
    lemma_collect_concat(run, collector, at, after);
    law_nothing_after_result(timed.0, timed.1, after);
}

/// A collection keeps its deadline.
pub proof fn lemma_collect_keeps_deadline(
    run: RunV,
    collector: CollectorV,
    script: Seq<(u64, TransportEventV)>,
)
    ensures
        collect_run(run, collector, script).1.timeout_ms == collector.timeout_ms,
    decreases script.len(),
{
    if script.len() > 0 {
        lemma_collect_keeps_deadline(run, collector, script.drop_last());
        let (r, c) = collect_run(run, collector, script.drop_last());
        lemma_observe_keeps_deadline(c, script.last().0, ActionV::Wait);
        lemma_observe_keeps_deadline(c, script.last().0, spec_step(r, script.last().1).1);
    }
}

/// Collecting over two scripts one after the other is collecting over the
/// first and then, from where that ended, over the second.
pub proof fn lemma_collect_concat(
    run: RunV,
    collector: CollectorV,
    first: Seq<(u64, TransportEventV)>,
    second: Seq<(u64, TransportEventV)>,
)
    ensures
        collect_run(run, collector, first + second) == collect_run(
            collect_run(run, collector, first).0,
            collect_run(run, collector, first).1,
            second,
        ),
    decreases second.len(),
{
    if second.len() == 0 {
        assert(first + second =~= first);
    } else {
        assert((first + second).drop_last() =~= first + second.drop_last());
        lemma_collect_concat(run, collector, first, second.drop_last());
    }
}

/// Absorbing events never gives a timeout.
pub proof fn lemma_absorb_is_no_timeout(collector: CollectorV, events: Seq<EventV>)
    requires
        !(collector.result matches Some(Err(e)) && e.kind == ErrorKind::Timeout),
    ensures
        !(absorb(collector, events).result matches Some(Err(e)) && e.kind == ErrorKind::Timeout),
    decreases events.len(),
{
    if events.len() > 0 {
        lemma_absorb_is_no_timeout(collector, events.drop_last());
    }
}

/// Whether every failure recorded in a run is of another class than the
/// timeout.
pub open spec fn records_no_timeout(run: RunV) -> bool {
    forall|i: int|
        0 <= i < run.failures.len() ==> (#[trigger] run.failures[i]).error.kind
            != ErrorKind::Timeout
}

/// The runner knows no timeout: no step reports one, and none is recorded.
pub proof fn lemma_step_is_no_timeout(run: RunV, event: TransportEventV)
    requires
        run_wf(run),
        records_no_timeout(run),
    ensures
        records_no_timeout(spec_step(run, event).0),
        match spec_step(run, event).1 {
            ActionV::Finish { outcome: Err(e), .. } => e.kind != ErrorKind::Timeout,
            _ => true,
        },
{
}

/// Before the deadline no collection times out: while every observation
/// is made before the deadline, the result, where there is one, is not the
/// timeout.
pub proof fn law_no_timeout_before_deadline(
    plans: Seq<AttemptPlanV>,
    timeout_ms: u64,
    script: Seq<(u64, TransportEventV)>,
)
    requires
        timeout_ms > 0,
        forall|i: int| 0 <= i < script.len() ==> (#[trigger] script[i]).0 < timeout_ms,
    ensures
        ({
            let (run, collector) = collect_start(plans, timeout_ms);
            !(collect_run(run, collector, script).1.result matches Some(Err(e)) && e.kind
                == ErrorKind::Timeout)
        }),
{
    let (run, collector) = collect_start(plans, timeout_ms);
    lemma_absorb_is_no_timeout(fresh_collector(timeout_ms), Seq::empty());
    lemma_observe_keeps_deadline(fresh_collector(timeout_ms), 0, spec_start(plans).1);
    lemma_collect_is_no_timeout(run, collector, script);
}

/// While every observation is made before the deadline, a collection that
/// has not timed out does not time out.
pub proof fn lemma_collect_is_no_timeout(
    run: RunV,
    collector: CollectorV,
    script: Seq<(u64, TransportEventV)>,
)
    requires
        run_wf(run),
        records_no_timeout(run),
        !(collector.result matches Some(Err(e)) && e.kind == ErrorKind::Timeout),
        forall|i: int| 0 <= i < script.len() ==> (#[trigger] script[i]).0 < collector.timeout_ms,
    ensures
        run_wf(collect_run(run, collector, script).0),
        records_no_timeout(collect_run(run, collector, script).0),
        !(collect_run(run, collector, script).1.result matches Some(Err(e)) && e.kind
            == ErrorKind::Timeout),
    decreases script.len(),
{
    if script.len() > 0 {
        let init = script.drop_last();
        assert forall|i: int| 0 <= i < init.len() implies (#[trigger] init[i]).0
            < collector.timeout_ms by {
            assert(init[i] == script[i]);
        }
        lemma_collect_is_no_timeout(run, collector, init);
        lemma_collect_keeps_deadline(run, collector, init);
        let (r, c) = collect_run(run, collector, init);
        let (elapsed, event) = script.last();
        assert(script[script.len() - 1].0 < collector.timeout_ms);
        let (stepped, action) = spec_step(r, event);
        lemma_step_keeps_wf(r, event);
        lemma_step_is_no_timeout(r, event);
        lemma_step_keeps_wf(stepped, TransportEventV::Cancelled);
        lemma_step_is_no_timeout(stepped, TransportEventV::Cancelled);
        match action {
            ActionV::Forward { events } => lemma_absorb_is_no_timeout(c, events),
            ActionV::Finish { events, .. } => lemma_absorb_is_no_timeout(c, events),
            _ => {},
        }
    }
}

/// The text deltas among `events`, joined in order.
pub open spec fn joined_text(events: Seq<EventV>) -> Seq<char>
    decreases events.len(),
{
    if events.len() == 0 {
        Seq::empty()
    } else {
        match events.last() {
            EventV::TextDelta(text) => joined_text(events.drop_last()) + text,
            _ => joined_text(events.drop_last()),
        }
    }
}

/// Whether none of `events` is a failure that the provider reports.
pub open spec fn reports_no_error(events: Seq<EventV>) -> bool {
    forall|i: int| 0 <= i < events.len() ==> !((#[trigger] events[i]) is Error)
}

/// The collected text is the text deltas in the order of their arrival:
/// a collector that absorbs events without a reported failure holds the
/// text it held, followed by their text deltas joined in order.
pub proof fn law_text_is_joined_in_order(collector: CollectorV, events: Seq<EventV>)
    requires
        collector.result is None,
        reports_no_error(events),
    ensures
        absorb(collector, events).result is None,
        absorb(collector, events).text == collector.text + joined_text(events),
    decreases events.len(),
{
    if events.len() == 0 {
        assert(collector.text + joined_text(events) =~= collector.text);
    } else {
        let init = events.drop_last();
        assert forall|i: int| 0 <= i < init.len() implies !((#[trigger] init[i]) is Error) by {
            assert(init[i] == events[i]);
        }
        law_text_is_joined_in_order(collector, init);
        assert(!(events[events.len() - 1] is Error));
        assert(absorb(collector, events).text =~= collector.text + joined_text(events));
    }
}

} // verus!
