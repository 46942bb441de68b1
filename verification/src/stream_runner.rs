//! The stream runner: one logical request driven across its candidates.
//!
//! The runner decides and the transport acts. Each step takes what the
//! transport observed and gives what it is to do next, so that connecting,
//! refreshing and reading stay outside while every decision is made here.

use vstd::prelude::*;
use crate::http_status::{is_auth_error, spec_is_auth_error};
use crate::json::{Json, JsonV};
use crate::model_resolver::{resolve, spec_resolve, FallbackStrategy, FeatureDefaults};
use crate::models::{
    candidates_view, unknown_provider, ModelConfigV, ModelsConfiguration, ResolvedModel,
    ResolvedModelV,
};
use crate::protocols::request_builder::{build, spec_build};
use crate::protocols::stream_parser::{
    fresh_state, parse, spec_parse, ParseStateV, StreamFrame, StreamParseState,
};
use crate::providers::{find_provider, ApiKeyMap, ProviderRegistry};
use crate::text::{concat2, opt_view, owned};
use crate::types::{
    events_view, CanonicalEvent, ErrorKind, EventV, GatewayError, GatewayErrorV, ProtocolType,
    ProviderConfigV, StreamTextRequest,
};

verus! {

/// Where a run stands.
#[derive(Debug, Clone, Copy, PartialEq, Eq, Structural)]
pub enum Phase {
    /// A connection to the current candidate is being opened.
    Connecting,
    /// The credentials of the current candidate are being refreshed.
    Refreshing,
    /// The answer of the current candidate is being read.
    Streaming,
    /// The answer reached its terminal marker.
    Completed,
    /// The run ended in a failure.
    Failed,
    /// The run was cancelled.
    Cancelled,
}

/// What is sent to one candidate.
#[derive(Debug, PartialEq)]
pub struct AttemptPlan {
    pub provider_id: String,
    pub model_name: String,
    pub protocol: ProtocolType,
    pub request: Json,
}

/// The failure of one candidate.
#[derive(Debug, Clone, PartialEq)]
pub struct CandidateFailure {
    pub provider_id: String,
    pub model_name: String,
    pub error: GatewayError,
}

/// The failure of a run: its class and message, the last failure of each
/// candidate that was given up, and whether events had been forwarded
/// before it.
#[derive(Debug, Clone, PartialEq)]
pub struct RunError {
    pub kind: ErrorKind,
    pub message: String,
    pub attempts: Vec<CandidateFailure>,
    pub partial: bool,
}

/// What the transport observed.
#[derive(Debug, Clone, PartialEq)]
pub enum TransportEvent {
    /// The connection is open and frames will follow.
    Connected,
    /// The provider answered the request with a status that is no success.
    Rejected { status: u16, body: String },
    /// No connection could be made.
    Unreachable(String),
    /// The credentials were refreshed, or could not be.
    Refreshed(bool),
    /// One frame arrived.
    Frame(StreamFrame),
    /// The stream ended.
    Closed,
    /// The stream broke.
    Broken(String),
    /// The consumer gave the request up.
    Cancelled,
}

/// What the transport is to do next.
#[derive(Debug, PartialEq)]
pub enum RunnerAction {
    /// Open a stream to the candidate at `position` with `request`.
    Connect { position: usize, provider_id: String, request: Json },
    /// Refresh the credentials of `provider_id`, once.
    Refresh { provider_id: String },
    /// Hand `events` to the consumer and read on.
    Forward { events: Vec<CanonicalEvent> },
    /// Hand `events` to the consumer, close the stream and report `outcome`.
    Finish { events: Vec<CanonicalEvent>, outcome: Result<(), RunError> },
    /// Close the stream and hand nothing more to the consumer.
    Abort,
    /// Nothing is to be done.
    Wait,
}

pub ghost struct AttemptPlanV {
    pub provider_id: Seq<char>,
    pub model_name: Seq<char>,
    pub protocol: ProtocolType,
    pub request: JsonV,
}

pub ghost struct FailureV {
    pub provider_id: Seq<char>,
    pub model_name: Seq<char>,
    pub error: GatewayErrorV,
}

pub ghost struct RunErrorV {
    pub kind: ErrorKind,
    pub message: Seq<char>,
    pub attempts: Seq<FailureV>,
    pub partial: bool,
}

pub ghost enum TransportEventV {
    Connected,
    Rejected { status: u16, body: Seq<char> },
    Unreachable(Seq<char>),
    Refreshed(bool),
    Frame { event_type: Option<Seq<char>>, data: Seq<char> },
    Closed,
    Broken(Seq<char>),
    Cancelled,
}

pub ghost enum ActionV {
    Connect { position: int, provider_id: Seq<char>, request: JsonV },
    Refresh { provider_id: Seq<char> },
    Forward { events: Seq<EventV> },
    Finish { events: Seq<EventV>, outcome: Result<(), RunErrorV> },
    Abort,
    Wait,
}

/// The content of a run.
pub ghost struct RunV {
    pub phase: Phase,
    pub plans: Seq<AttemptPlanV>,
    pub position: int,
    pub refreshed: bool,
    pub emitted: bool,
    pub failures: Seq<FailureV>,
    pub parse: ParseStateV,
}

impl View for AttemptPlan {
    type V = AttemptPlanV;

    open spec fn view(&self) -> AttemptPlanV {
        AttemptPlanV {
            provider_id: self.provider_id@,
            model_name: self.model_name@,
            protocol: self.protocol,
            request: self.request@,
        }
    }
}

impl View for CandidateFailure {
    type V = FailureV;

    open spec fn view(&self) -> FailureV {
        FailureV {
            provider_id: self.provider_id@,
            model_name: self.model_name@,
            error: self.error@,
        }
    }
}

/// The contents of a list of failures.
pub open spec fn failures_view(failures: Seq<CandidateFailure>) -> Seq<FailureV> {
    failures.map_values(|f: CandidateFailure| f@)
}

/// The contents of a list of plans.
pub open spec fn plans_view(plans: Seq<AttemptPlan>) -> Seq<AttemptPlanV> {
    plans.map_values(|p: AttemptPlan| p@)
}

impl View for RunError {
    type V = RunErrorV;

    open spec fn view(&self) -> RunErrorV {
        RunErrorV {
            kind: self.kind,
            message: self.message@,
            attempts: failures_view(self.attempts@),
            partial: self.partial,
        }
    }
}

impl View for TransportEvent {
    type V = TransportEventV;

    open spec fn view(&self) -> TransportEventV {
        match self {
            TransportEvent::Connected => TransportEventV::Connected,
            TransportEvent::Rejected { status, body } => TransportEventV::Rejected {
                status: *status,
                body: body@,
            },
            TransportEvent::Unreachable(m) => TransportEventV::Unreachable(m@),
            TransportEvent::Refreshed(ok) => TransportEventV::Refreshed(*ok),
            TransportEvent::Frame(f) => TransportEventV::Frame {
                event_type: opt_view(f.event_type),
                data: f.data@,
            },
            TransportEvent::Closed => TransportEventV::Closed,
            TransportEvent::Broken(m) => TransportEventV::Broken(m@),
            TransportEvent::Cancelled => TransportEventV::Cancelled,
        }
    }
}

/// The content of an outcome.
pub open spec fn outcome_view(outcome: Result<(), RunError>) -> Result<(), RunErrorV> {
    match outcome {
        Ok(_) => Ok(()),
        Err(e) => Err(e@),
    }
}

impl View for RunnerAction {
    type V = ActionV;

    open spec fn view(&self) -> ActionV {
        match self {
            RunnerAction::Connect { position, provider_id, request } => ActionV::Connect {
                position: *position as int,
                provider_id: provider_id@,
                request: request@,
            },
            RunnerAction::Refresh { provider_id } => ActionV::Refresh { provider_id: provider_id@ },
            RunnerAction::Forward { events } => ActionV::Forward { events: events_view(events@) },
            RunnerAction::Finish { events, outcome } => ActionV::Finish {
                events: events_view(events@),
                outcome: outcome_view(*outcome),
            },
            RunnerAction::Abort => ActionV::Abort,
            RunnerAction::Wait => ActionV::Wait,
        }
    }
}

/// Whether a run is still at work on a candidate.
pub open spec fn is_live(phase: Phase) -> bool {
    phase == Phase::Connecting || phase == Phase::Refreshing || phase == Phase::Streaming
}

/// Whether a run is well formed: while it is at work, its position names a
/// candidate, and its queue has been drained.
pub open spec fn run_wf(run: RunV) -> bool {
    &&& 0 <= run.position
    &&& is_live(run.phase) ==> run.position < run.plans.len()
    &&& run.parse.pending.len() == 0
}

/// The action that opens a stream to the candidate at `position`.
pub open spec fn connect_to(plans: Seq<AttemptPlanV>, position: int) -> ActionV {
    ActionV::Connect {
        position,
        provider_id: plans[position].provider_id,
        request: plans[position].request,
    }
}

/// The failure of a run whose candidates all failed.
pub open spec fn all_failed(failures: Seq<FailureV>) -> RunErrorV {
    RunErrorV {
        kind: ErrorKind::AllProvidersFailed,
        message: "All providers failed"@,
        attempts: failures,
        partial: false,
    }
}

/// The failure of the current candidate, as it is recorded.
pub open spec fn failure_of(run: RunV, error: GatewayErrorV) -> FailureV {
    FailureV {
        provider_id: run.plans[run.position].provider_id,
        model_name: run.plans[run.position].model_name,
        error,
    }
}

/// The run at its first candidate, and the action that begins it. Without
/// a candidate the run has failed before it began.
pub open spec fn spec_start(plans: Seq<AttemptPlanV>) -> (RunV, ActionV) {
    let run = RunV {
        phase: if plans.len() > 0 {
            Phase::Connecting
        } else {
            Phase::Failed
        },
        plans,
        position: 0,
        refreshed: false,
        emitted: false,
        failures: Seq::empty(),
        parse: fresh_state(),
    };
    if plans.len() > 0 {
        (run, connect_to(plans, 0))
    } else {
        (run, ActionV::Finish { events: Seq::empty(), outcome: Err(all_failed(Seq::empty())) })
    }
}

/// The current candidate is given up with `error`: the failure is recorded,
/// and the run goes on to the next candidate, or fails where there is none.
pub open spec fn give_up(run: RunV, error: GatewayErrorV) -> (RunV, ActionV) {
    let failures = run.failures.push(failure_of(run, error));
    let next = run.position + 1;
    if next < run.plans.len() {
        (
            RunV {
                phase: Phase::Connecting,
                plans: run.plans,
                position: next,
                refreshed: false,
                emitted: false,
                failures,
                parse: fresh_state(),
            },
            connect_to(run.plans, next),
        )
    } else {
        (
            RunV {
                phase: Phase::Failed,
                plans: run.plans,
                position: next,
                refreshed: false,
                emitted: false,
                failures,
                parse: fresh_state(),
            },
            ActionV::Finish { events: Seq::empty(), outcome: Err(all_failed(failures)) },
        )
    }
}

/// A failure while the answer is read. Once events have been forwarded the
/// failure ends the run and is reported with what was produced; before that
/// the candidate is given up like one that could not be reached.
pub open spec fn fail_in_stream(run: RunV, events: Seq<EventV>, error: GatewayErrorV) -> (
    RunV,
    ActionV,
) {
    if run.emitted || events.len() > 0 {
        let failures = run.failures.push(failure_of(run, error));
        (
            RunV {
                phase: Phase::Failed,
                plans: run.plans,
                position: run.position,
                refreshed: run.refreshed,
                emitted: true,
                failures,
                parse: ParseStateV { pending: Seq::empty(), ..run.parse },
            },
            ActionV::Finish {
                events,
                outcome: Err(
                    RunErrorV {
                        kind: error.kind,
                        message: error.message,
                        attempts: failures,
                        partial: true,
                    },
                ),
            },
        )
    } else {
        give_up(run, error)
    }
}

/// The failure of a candidate whose credentials were rejected again after
/// the refresh.
pub open spec fn auth_expired() -> GatewayErrorV {
    GatewayErrorV { kind: ErrorKind::AuthExpired, message: "Credentials rejected after refresh"@ }
}

/// The failure of a candidate whose credentials could not be refreshed.
pub open spec fn refresh_failed() -> GatewayErrorV {
    GatewayErrorV { kind: ErrorKind::AuthExpired, message: "Credential refresh failed"@ }
}

/// The failure of a candidate that answered with a status that is neither a
/// success nor a rejection of the credentials.
pub open spec fn request_failed(body: Seq<char>) -> GatewayErrorV {
    GatewayErrorV { kind: ErrorKind::Network, message: "Request failed: "@ + body }
}

/// The failure of a stream that ended before its terminal marker.
pub open spec fn ended_early() -> GatewayErrorV {
    GatewayErrorV { kind: ErrorKind::Network, message: "Stream ended before completion"@ }
}

/// A transport failure with the transport's own words.
pub open spec fn network_failure(message: Seq<char>) -> GatewayErrorV {
    GatewayErrorV { kind: ErrorKind::Network, message }
}

/// One frame of the answer: it is parsed, the queue is drained, and the
/// events go to the consumer; the terminal marker completes the run; a
/// failure of the parser is a failure in the stream.
pub open spec fn on_frame(run: RunV, event_type: Option<Seq<char>>, data: Seq<char>) -> (
    RunV,
    ActionV,
) {
    let protocol = run.plans[run.position].protocol;
    let (parsed, failure) = spec_parse(protocol, event_type, data, run.parse);
    let events = parsed.pending;
    let drained = ParseStateV { pending: Seq::empty(), ..parsed };
    match failure {
        Some(error) => fail_in_stream(RunV { parse: drained, ..run }, events, error),
        None => if parsed.finished {
            (
                RunV {
                    phase: Phase::Completed,
                    emitted: run.emitted || events.len() > 0,
                    parse: drained,
                    ..run
                },
                ActionV::Finish { events, outcome: Ok(()) },
            )
        } else {
            (
                RunV { emitted: run.emitted || events.len() > 0, parse: drained, ..run },
                ActionV::Forward { events },
            )
        },
    }
}

/// One step of a run: the run after `event`, and what the transport is to
/// do next. An event that the phase does not expect changes nothing, and
/// nothing changes a run that has ended.
pub open spec fn spec_step(run: RunV, event: TransportEventV) -> (RunV, ActionV) {
    if !is_live(run.phase) {
        (run, ActionV::Wait)
    } else if event is Cancelled {
        (RunV { phase: Phase::Cancelled, ..run }, ActionV::Abort)
    } else {
        match run.phase {
            Phase::Connecting => match event {
                TransportEventV::Connected => (
                    RunV { phase: Phase::Streaming, parse: fresh_state(), ..run },
                    ActionV::Wait,
                ),
                TransportEventV::Rejected { status, body } => if spec_is_auth_error(status) {
                    if run.refreshed {
                        give_up(run, auth_expired())
                    } else {
                        (
                            RunV { phase: Phase::Refreshing, refreshed: true, ..run },
                            ActionV::Refresh {
                                provider_id: run.plans[run.position].provider_id,
                            },
                        )
                    }
                } else {
                    give_up(run, request_failed(body))
                },
                TransportEventV::Unreachable(message) => give_up(run, network_failure(message)),
                _ => (run, ActionV::Wait),
            },
            Phase::Refreshing => match event {
                TransportEventV::Refreshed(ok) => if ok {
                    (RunV { phase: Phase::Connecting, ..run }, connect_to(run.plans, run.position))
                } else {
                    give_up(run, refresh_failed())
                },
                _ => (run, ActionV::Wait),
            },
            Phase::Streaming => match event {
                TransportEventV::Frame { event_type, data } => on_frame(run, event_type, data),
                TransportEventV::Closed => fail_in_stream(run, Seq::empty(), ended_early()),
                TransportEventV::Broken(message) => fail_in_stream(
                    run,
                    Seq::empty(),
                    network_failure(message),
                ),
                _ => (run, ActionV::Wait),
            },
            _ => (run, ActionV::Wait),
        }
    }
}

/// A step keeps a run well formed.
pub proof fn lemma_step_keeps_wf(run: RunV, event: TransportEventV)
    requires
        run_wf(run),
    ensures
        run_wf(spec_step(run, event).0),
{
}

/// The run after a sequence of events, and the actions that it gave, in
/// order.
pub open spec fn spec_run(run: RunV, events: Seq<TransportEventV>) -> (RunV, Seq<ActionV>)
    decreases events.len(),
{
    if events.len() == 0 {
        (run, Seq::empty())
    } else {
        let (before, actions) = spec_run(run, events.drop_last());
        let (after, action) = spec_step(before, events.last());
        (after, actions.push(action))
    }
}

/// The events that an action hands to the consumer.
pub open spec fn forwarded_by(action: ActionV) -> Seq<EventV> {
    match action {
        ActionV::Forward { events } => events,
        ActionV::Finish { events, .. } => events,
        _ => Seq::empty(),
    }
}

/// The events that a sequence of actions hands to the consumer, in order.
pub open spec fn forwarded(actions: Seq<ActionV>) -> Seq<EventV>
    decreases actions.len(),
{
    if actions.len() == 0 {
        Seq::empty()
    } else {
        forwarded(actions.drop_last()) + forwarded_by(actions.last())
    }
}

/// The number of credential refreshes that a sequence of actions asks for.
pub open spec fn refreshes(actions: Seq<ActionV>) -> nat
    decreases actions.len(),
{
    if actions.len() == 0 {
        0
    } else {
        refreshes(actions.drop_last()) + if actions.last() is Refresh {
            1nat
        } else {
            0nat
        }
    }
}

/// The outcome that a sequence of actions reports: that of its last
/// `Finish`, where it has one.
pub open spec fn reported(actions: Seq<ActionV>) -> Option<Result<(), RunErrorV>>
    decreases actions.len(),
{
    if actions.len() == 0 {
        None
    } else {
        match actions.last() {
            ActionV::Finish { outcome, .. } => Some(outcome),
            _ => reported(actions.drop_last()),
        }
    }
}

/// The provider's default body, as members.
pub open spec fn default_body(provider: ProviderConfigV) -> crate::json::Fields {
    match provider.extra_body {
        Some(fields) => fields,
        None => Seq::empty(),
    }
}

/// What is sent to `candidate`, or why nothing can be: the provider must be
/// registered and the request well formed.
pub open spec fn plan_of(
    candidate: ResolvedModelV,
    registry: Seq<ProviderConfigV>,
    request: StreamTextRequest,
) -> Result<AttemptPlanV, GatewayErrorV> {
    match find_provider(registry, candidate.provider_id) {
        None => Err(unknown_provider(candidate.provider_id)),
        Some(provider) => match spec_build(
            provider.protocol,
            candidate.model_name,
            request,
            default_body(provider),
        ) {
            Ok(payload) => Ok(
                AttemptPlanV {
                    provider_id: candidate.provider_id,
                    model_name: candidate.model_name,
                    protocol: provider.protocol,
                    request: payload,
                },
            ),
            Err(e) => Err(e),
        },
    }
}

/// What is sent to each candidate, in order, or the first reason in that
/// order why nothing can be sent.
pub open spec fn spec_plans(
    candidates: Seq<ResolvedModelV>,
    registry: Seq<ProviderConfigV>,
    request: StreamTextRequest,
) -> Result<Seq<AttemptPlanV>, GatewayErrorV>
    decreases candidates.len(),
{
    if candidates.len() == 0 {
        Ok(Seq::empty())
    } else {
        match spec_plans(candidates.drop_last(), registry, request) {
            Err(e) => Err(e),
            Ok(before) => match plan_of(candidates.last(), registry, request) {
                Ok(plan) => Ok(before.push(plan)),
                Err(e) => Err(e),
            },
        }
    }
}

/// Once a prefix of the candidates cannot be planned, the whole list cannot,
/// for the same reason.
pub proof fn lemma_plans_failure_stays(
    candidates: Seq<ResolvedModelV>,
    n: int,
    registry: Seq<ProviderConfigV>,
    request: StreamTextRequest,
)
    requires
        0 <= n <= candidates.len(),
        spec_plans(candidates.take(n), registry, request) is Err,
    ensures
        spec_plans(candidates, registry, request) == spec_plans(
            candidates.take(n),
            registry,
            request,
        ),
    decreases candidates.len() - n,
{
    if n < candidates.len() {
        assert(candidates.take(n + 1).drop_last() =~= candidates.take(n));
        lemma_plans_failure_stays(candidates, n + 1, registry, request);
    } else {
        assert(candidates.take(n) =~= candidates);
    }
}

/// A copy of a list of failures.
pub fn duplicate_failures(failures: &Vec<CandidateFailure>) -> (copy: Vec<CandidateFailure>)
    ensures
        failures_view(copy@) == failures_view(failures@),
{
    let mut out: Vec<CandidateFailure> = Vec::new();
    let mut i: usize = 0;
    while i < failures.len()
        invariant
            i <= failures.len(),
            out@.len() == i,
            forall|j: int| 0 <= j < i ==> out@[j]@ == failures@[j]@,
        decreases failures.len() - i,
    {
        out.push(
            CandidateFailure {
                provider_id: failures[i].provider_id.clone(),
                model_name: failures[i].model_name.clone(),
                error: failures[i].error.duplicate(),
            },
        );
        i += 1;
    }
    out
}

/// Plans every candidate, in order.
pub fn plan_candidates(
    candidates: &Vec<ResolvedModel>,
    registry: &ProviderRegistry,
    request: &StreamTextRequest,
) -> (result: Result<Vec<AttemptPlan>, GatewayError>)
    ensures
        match result {
            Ok(plans) => spec_plans(candidates_view(candidates@), registry@, *request) == Ok::<
                Seq<AttemptPlanV>,
                GatewayErrorV,
            >(plans_view(plans@)),
            Err(e) => spec_plans(candidates_view(candidates@), registry@, *request) == Err::<
                Seq<AttemptPlanV>,
                GatewayErrorV,
            >(e@),
        },
{
    let ghost views = candidates_view(candidates@);
    let mut plans: Vec<AttemptPlan> = Vec::new();
    let mut i: usize = 0;
    assert(plans_view(plans@) =~= Seq::empty());
    while i < candidates.len()
        invariant
            i <= candidates.len(),
            views == candidates_view(candidates@),
            spec_plans(views.take(i as int), registry@, *request) == Ok::<
                Seq<AttemptPlanV>,
                GatewayErrorV,
            >(plans_view(plans@)),
        decreases candidates.len() - i,
    {
        let candidate = &candidates[i];
        proof {
            assert(views.take(i + 1).drop_last() =~= views.take(i as int));
        }
        let provider = match registry.provider(candidate.provider_id.as_str()) {
            Some(p) => p,
            None => {
                proof {
                    lemma_plans_failure_stays(views, i + 1, registry@, *request);
                }
                return Err(
                    GatewayError::about(
                        ErrorKind::Configuration,
                        "Provider not registered: ",
                        candidate.provider_id.as_str(),
                    ),
                );
            },
        };
        match build(request, candidate, provider) {
            Ok(payload) => {
                let plan = AttemptPlan {
                    provider_id: candidate.provider_id.clone(),
                    model_name: candidate.model_name.clone(),
                    protocol: provider.protocol,
                    request: payload,
                };
                let ghost prev = plans_view(plans@);
                plans.push(plan);
                assert(plans_view(plans@) =~= prev.push(plan@));
            },
            Err(e) => {
                proof {
                    lemma_plans_failure_stays(views, i + 1, registry@, *request);
                }
                return Err(e);
            },
        }
        i += 1;
    }
    proof {
        assert(views.take(i as int) =~= views);
    }
    Ok(plans)
}

/// The runner: the registry, the credentials and the catalog that requests
/// are resolved against.
#[derive(Debug, PartialEq)]
pub struct StreamRunner {
    pub registry: ProviderRegistry,
    pub keys: ApiKeyMap,
    pub models: ModelsConfiguration,
}

/// What is sent to each candidate of a request, or why the request cannot
/// be served: it does not resolve, or it is not well formed.
pub open spec fn spec_plan(
    request: StreamTextRequest,
    strategy: FallbackStrategy,
    defaults: FeatureDefaults,
    registry: Seq<ProviderConfigV>,
    keys: Seq<(Seq<char>, Seq<char>)>,
    models: Seq<ModelConfigV>,
) -> Result<Seq<AttemptPlanV>, GatewayErrorV> {
    match spec_resolve(
        Some(request.model@),
        strategy,
        opt_view(defaults.configured),
        defaults.builtin@,
        defaults.capability,
        registry,
        keys,
        models,
    ) {
        Err(e) => Err(e),
        Ok(candidates) => spec_plans(candidates, registry, request),
    }
}

impl StreamRunner {
    /// A runner over `registry`, `keys` and `models`.
    pub fn new(registry: ProviderRegistry, keys: ApiKeyMap, models: ModelsConfiguration) -> (runner:
        StreamRunner)
        ensures
            runner.registry == registry,
            runner.keys == keys,
            runner.models == models,
    {
        StreamRunner { registry, keys, models }
    }

    /// Resolves `request` and builds what is sent to each of its candidates.
    /// A failure here ends the request before anything is sent.
    pub fn plan(
        &self,
        request: &StreamTextRequest,
        strategy: FallbackStrategy,
        defaults: &FeatureDefaults,
    ) -> (result: Result<Vec<AttemptPlan>, GatewayError>)
        ensures
            match result {
                Ok(plans) => spec_plan(
                    *request,
                    strategy,
                    *defaults,
                    self.registry@,
                    self.keys@,
                    self.models@,
                ) == Ok::<Seq<AttemptPlanV>, GatewayErrorV>(plans_view(plans@)),
                Err(e) => spec_plan(
                    *request,
                    strategy,
                    *defaults,
                    self.registry@,
                    self.keys@,
                    self.models@,
                ) == Err::<Seq<AttemptPlanV>, GatewayErrorV>(e@),
            },
    {
        match resolve(
            Some(request.model.clone()),
            strategy,
            defaults,
            &self.keys,
            &self.registry,
            &self.models,
        ) {
            Err(e) => Err(e),
            Ok(candidates) => plan_candidates(&candidates, &self.registry, request),
        }
    }
}

/// One logical request on its way across its candidates.
#[derive(Debug, PartialEq)]
pub struct StreamRun {
    phase: Phase,
    plans: Vec<AttemptPlan>,
    position: usize,
    refreshed: bool,
    emitted: bool,
    failures: Vec<CandidateFailure>,
    parse: StreamParseState,
}

impl View for StreamRun {
    type V = RunV;

    closed spec fn view(&self) -> RunV {
        RunV {
            phase: self.phase,
            plans: plans_view(self.plans@),
            position: self.position as int,
            refreshed: self.refreshed,
            emitted: self.emitted,
            failures: failures_view(self.failures@),
            parse: self.parse@,
        }
    }
}

impl StreamRun {
    /// Begins a run over `plans`, in their order.
    pub fn start(plans: Vec<AttemptPlan>) -> (begun: (StreamRun, RunnerAction))
        ensures
            (begun.0@, begun.1@) == spec_start(plans_view(plans@)),
            run_wf(begun.0@),
    {
        let live = plans.len() > 0;
        let mut run = StreamRun {
            phase: if live {
                Phase::Connecting
            } else {
                Phase::Failed
            },
            plans,
            position: 0,
            refreshed: false,
            emitted: false,
            failures: Vec::new(),
            parse: StreamParseState::new(),
        };
        assert(failures_view(run.failures@) =~= Seq::empty());
        if live {
            let action = run.connect();
            (run, action)
        } else {
            let attempts: Vec<CandidateFailure> = Vec::new();
            let action = RunnerAction::Finish {
                events: Vec::new(),
                outcome: Err(
                    RunError {
                        kind: ErrorKind::AllProvidersFailed,
                        message: owned("All providers failed"),
                        attempts,
                        partial: false,
                    },
                ),
            };
            assert(events_view(Seq::<CanonicalEvent>::empty()) =~= Seq::empty());
            (run, action)
        }
    }

    /// Where the run stands.
    pub fn phase(&self) -> (phase: Phase)
        ensures
            phase == self@.phase,
    {
        self.phase
    }

    /// The index of the current candidate.
    pub fn position(&self) -> (position: usize)
        ensures
            position == self@.position,
    {
        self.position
    }

    /// The failures of the candidates given up so far, in order.
    pub fn failures(&self) -> (failures: &Vec<CandidateFailure>)
        ensures
            failures_view(failures@) == self@.failures,
    {
        &self.failures
    }

    /// The action that opens a stream to the current candidate.
    fn connect(&self) -> (action: RunnerAction)
        requires
            self.position < self.plans.len(),
        ensures
            action@ == connect_to(self@.plans, self@.position),
    {
        let plan = &self.plans[self.position];
        RunnerAction::Connect {
            position: self.position,
            provider_id: plan.provider_id.clone(),
            request: plan.request.duplicate(),
        }
    }

    /// Records the failure of the current candidate.
    fn record(&mut self, error: GatewayError)
        requires
            old(self).position < old(self).plans.len(),
        ensures
            final(self)@ == (RunV {
                failures: old(self)@.failures.push(failure_of(old(self)@, error@)),
                ..old(self)@
            }),
            final(self).position == old(self).position,
            final(self).plans == old(self).plans,
    {
        let plan = &self.plans[self.position];
        let failure = CandidateFailure {
            provider_id: plan.provider_id.clone(),
            model_name: plan.model_name.clone(),
            error,
        };
        let ghost prev = failures_view(self.failures@);
        self.failures.push(failure);
        assert(failures_view(self.failures@) =~= prev.push(failure@));
    }

    /// Gives the current candidate up and goes on to the next.
    fn give_up(&mut self, error: GatewayError) -> (action: RunnerAction)
        requires
            old(self).position < old(self).plans.len(),
        ensures
            (final(self)@, action@) == give_up(old(self)@, error@),
    {
        self.record(error);
        self.position = self.position + 1;
        self.refreshed = false;
        self.emitted = false;
        self.parse = StreamParseState::new();
        if self.position < self.plans.len() {
            self.phase = Phase::Connecting;
            self.connect()
        } else {
            self.phase = Phase::Failed;
            assert(events_view(Seq::<CanonicalEvent>::empty()) =~= Seq::empty());
            RunnerAction::Finish {
                events: Vec::new(),
                outcome: Err(
                    RunError {
                        kind: ErrorKind::AllProvidersFailed,
                        message: owned("All providers failed"),
                        attempts: duplicate_failures(&self.failures),
                        partial: false,
                    },
                ),
            }
        }
    }

    /// Handles a failure while the answer is read.
    fn fail_in_stream(&mut self, events: Vec<CanonicalEvent>, error: GatewayError) -> (action:
        RunnerAction)
        requires
            old(self).position < old(self).plans.len(),
            old(self)@.parse.pending.len() == 0,
        ensures
            (final(self)@, action@) == fail_in_stream(old(self)@, events_view(events@), error@),
    {
        if self.emitted || events.len() > 0 {
            let kind = error.kind;
            let message = error.message.clone();
            self.record(error);
            self.phase = Phase::Failed;
            self.emitted = true;
            assert(self@.parse.pending =~= Seq::<EventV>::empty());
            RunnerAction::Finish {
                events,
                outcome: Err(
                    RunError {
                        kind,
                        message,
                        attempts: duplicate_failures(&self.failures),
                        partial: true,
                    },
                ),
            }
        } else {
            self.give_up(error)
        }
    }

    /// Handles one frame of the answer.
    fn on_frame(&mut self, frame: &StreamFrame) -> (action: RunnerAction)
        requires
            old(self).position < old(self).plans.len(),
        ensures
            (final(self)@, action@) == on_frame(
                old(self)@,
                opt_view(frame.event_type),
                frame.data@,
            ),
    {
        let protocol = self.plans[self.position].protocol;
        let result = parse(protocol, frame, &mut self.parse);
        let events = self.parse.drain();
        match result {
            Err(error) => self.fail_in_stream(events, error),
            Ok(_) => {
                self.emitted = self.emitted || events.len() > 0;
                if self.parse.finished {
                    self.phase = Phase::Completed;
                    RunnerAction::Finish { events, outcome: Ok(()) }
                } else {
                    RunnerAction::Forward { events }
                }
            },
        }
    }

    /// Takes what the transport observed and decides what it is to do next.
    pub fn step(&mut self, event: &TransportEvent) -> (action: RunnerAction)
        requires
            run_wf(old(self)@),
        ensures
            (final(self)@, action@) == spec_step(old(self)@, event@),
            run_wf(final(self)@),
    {
        proof {
            lemma_step_keeps_wf(self@, event@);
        }
        match self.phase {
            Phase::Connecting => match event {
                TransportEvent::Cancelled => {
                    self.phase = Phase::Cancelled;
                    RunnerAction::Abort
                },
                TransportEvent::Connected => {
                    self.phase = Phase::Streaming;
                    self.parse = StreamParseState::new();
                    RunnerAction::Wait
                },
                TransportEvent::Rejected { status, body } => {
                    if is_auth_error(*status) {
                        if self.refreshed {
                            self.give_up(
                                GatewayError {
                                    kind: ErrorKind::AuthExpired,
                                    message: owned("Credentials rejected after refresh"),
                                },
                            )
                        } else {
                            self.phase = Phase::Refreshing;
                            self.refreshed = true;
                            RunnerAction::Refresh {
                                provider_id: self.plans[self.position].provider_id.clone(),
                            }
                        }
                    } else {
                        self.give_up(
                            GatewayError {
                                kind: ErrorKind::Network,
                                message: concat2("Request failed: ", body.as_str()),
                            },
                        )
                    }
                },
                TransportEvent::Unreachable(message) => self.give_up(
                    GatewayError { kind: ErrorKind::Network, message: message.clone() },
                ),
                _ => RunnerAction::Wait,
            },
            Phase::Refreshing => match event {
                TransportEvent::Cancelled => {
                    self.phase = Phase::Cancelled;
                    RunnerAction::Abort
                },
                TransportEvent::Refreshed(ok) => {
                    if *ok {
                        self.phase = Phase::Connecting;
                        self.connect()
                    } else {
                        self.give_up(
                            GatewayError {
                                kind: ErrorKind::AuthExpired,
                                message: owned("Credential refresh failed"),
                            },
                        )
                    }
                },
                _ => RunnerAction::Wait,
            },
            Phase::Streaming => match event {
                TransportEvent::Cancelled => {
                    self.phase = Phase::Cancelled;
                    RunnerAction::Abort
                },
                TransportEvent::Frame(frame) => self.on_frame(frame),
                TransportEvent::Closed => {
                    assert(events_view(Seq::<CanonicalEvent>::empty()) =~= Seq::empty());
                    self.fail_in_stream(
                        Vec::new(),
                        GatewayError {
                            kind: ErrorKind::Network,
                            message: owned("Stream ended before completion"),
                        },
                    )
                },
                TransportEvent::Broken(message) => {
                    assert(events_view(Seq::<CanonicalEvent>::empty()) =~= Seq::empty());
                    self.fail_in_stream(
                        Vec::new(),
                        GatewayError { kind: ErrorKind::Network, message: message.clone() },
                    )
                },
                _ => RunnerAction::Wait,
            },
            _ => RunnerAction::Wait,
        }
    }
}

/// What a replayed run gave: the events handed to the consumer, in order,
/// the outcome where one was reported, the number of credential refreshes
/// asked for, and where the run stood at the end.
#[derive(Debug, PartialEq)]
pub struct RunReport {
    pub events: Vec<CanonicalEvent>,
    pub outcome: Option<Result<(), RunError>>,
    pub refreshes: usize,
    pub phase: Phase,
}

/// The contents of a script of transport events.
pub open spec fn script_view(script: Seq<TransportEvent>) -> Seq<TransportEventV> {
    script.map_values(|e: TransportEvent| e@)
}

/// The outcome that a whole run reports: that of its last `Finish`, which
/// may be the action that began it.
pub open spec fn reported_by_run(begin: ActionV, actions: Seq<ActionV>) -> Option<
    Result<(), RunErrorV>,
> {
    match reported(actions) {
        Some(outcome) => Some(outcome),
        None => match begin {
            ActionV::Finish { outcome, .. } => Some(outcome),
            _ => None,
        },
    }
}

/// The content of an outcome that may not have been reported.
pub open spec fn opt_outcome_view(outcome: Option<Result<(), RunError>>) -> Option<
    Result<(), RunErrorV>,
> {
    match outcome {
        Some(o) => Some(outcome_view(o)),
        None => None,
    }
}

/// Runs `plans` against a recorded script: each event of the script is
/// handed to the run in turn, as a transport would hand it.
pub fn replay(plans: Vec<AttemptPlan>, script: &Vec<TransportEvent>) -> (report: RunReport)
    ensures
        ({
            let (begun, begin) = spec_start(plans_view(plans@));
            let (ended, actions) = spec_run(begun, script_view(script@));
            &&& events_view(report.events@) == forwarded(actions)
            &&& opt_outcome_view(report.outcome) == reported_by_run(begin, actions)
            &&& report.refreshes == refreshes(actions)
            &&& report.phase == ended.phase
        }),
{
    let ghost begun = spec_start(plans_view(plans@)).0;
    let ghost begin = spec_start(plans_view(plans@)).1;
    let ghost views = script_view(script@);
    let (mut run, first) = StreamRun::start(plans);
    let mut events: Vec<CanonicalEvent> = Vec::new();
    let mut outcome: Option<Result<(), RunError>> = match first {
        RunnerAction::Finish { events: _, outcome } => Some(outcome),
        _ => None,
    };
    let mut count: usize = 0;
    let mut i: usize = 0;
    let ghost mut actions: Seq<ActionV> = Seq::empty();
    while i < script.len()
        invariant
            i <= script.len(),
            views == script_view(script@),
            run_wf(run@),
            spec_run(begun, views.take(i as int)) == (run@, actions),
            events_view(events@) == forwarded(actions),
            opt_outcome_view(outcome) == reported_by_run(begin, actions),
            count == refreshes(actions),
            count <= i,
        decreases script.len() - i,
    {
        proof {
            assert(views.take(i + 1).drop_last() =~= views.take(i as int));
        }
        let action = run.step(&script[i]);
        proof {
            let grown = actions.push(action@);
            assert(grown.drop_last() =~= actions);
            actions = grown;
        }
        match action {
            RunnerAction::Forward { events: more } => {
                let mut more = more;
                events.append(&mut more);
            },
            RunnerAction::Finish { events: more, outcome: reported } => {
                let mut more = more;
                events.append(&mut more);
                outcome = Some(reported);
            },
            RunnerAction::Refresh { provider_id: _ } => {
                count += 1;
            },
            _ => {},
        }
        i += 1;
    }
    proof {
        assert(views.take(i as int) =~= views);
    }
    RunReport { events, outcome, refreshes: count, phase: run.phase() }
}

/// What one more action adds to what a sequence of actions forwards, asks
/// for and reports.
pub proof fn lemma_actions_push(actions: Seq<ActionV>, action: ActionV)
    ensures
        forwarded(actions.push(action)) == forwarded(actions) + forwarded_by(action),
        refreshes(actions.push(action)) == refreshes(actions) + if action is Refresh {
            1nat
        } else {
            0nat
        },
        reported(actions.push(action)) == match action {
            ActionV::Finish { outcome, .. } => Some(outcome),
            _ => reported(actions),
        },
{
    assert(actions.push(action).drop_last() =~= actions);
}

/// Whether `long` is `short` with one more candidate before it, given up
/// with `failure`.
pub open spec fn is_shifted(long: RunV, short: RunV, first: AttemptPlanV, failure: FailureV) -> bool {
    &&& long.phase == short.phase
    &&& long.plans == seq![first] + short.plans
    &&& long.position == short.position + 1
    &&& long.refreshed == short.refreshed
    &&& long.emitted == short.emitted
    &&& long.failures == seq![failure] + short.failures
    &&& long.parse == short.parse
}

/// Whether `long` and `short` ask the same of the transport and hand the
/// same to the consumer, `long` counting one more candidate and carrying
/// one more recorded failure.
pub open spec fn is_shifted_action(long: ActionV, short: ActionV, failure: FailureV) -> bool {
    match (long, short) {
        (
            ActionV::Connect { position: p, provider_id: i, request: r },
            ActionV::Connect { position: q, provider_id: j, request: s },
        ) => p == q + 1 && i == j && r == s,
        (
            ActionV::Finish { events: e, outcome: Ok(_) },
            ActionV::Finish { events: f, outcome: Ok(_) },
        ) => e == f,
        (
            ActionV::Finish { events: e, outcome: Err(x) },
            ActionV::Finish { events: f, outcome: Err(y) },
        ) => e == f && x.kind == y.kind && x.message == y.message && x.partial == y.partial
            && x.attempts == seq![failure] + y.attempts,
        (ActionV::Refresh { provider_id: i }, ActionV::Refresh { provider_id: j }) => i == j,
        (ActionV::Forward { events: e }, ActionV::Forward { events: f }) => e == f,
        (ActionV::Abort, ActionV::Abort) => true,
        (ActionV::Wait, ActionV::Wait) => true,
        _ => false,
    }
}

/// One step keeps two runs in step with each other.
pub proof fn lemma_step_shifted(
    long: RunV,
    short: RunV,
    first: AttemptPlanV,
    failure: FailureV,
    event: TransportEventV,
)
    requires
        is_shifted(long, short, first, failure),
        run_wf(short),
    ensures
        is_shifted(spec_step(long, event).0, spec_step(short, event).0, first, failure),
        is_shifted_action(spec_step(long, event).1, spec_step(short, event).1, failure),
        run_wf(spec_step(short, event).0),
{
    lemma_step_keeps_wf(short, event);
    if is_live(short.phase) {
        assert(long.plans[long.position] == short.plans[short.position]);
        if short.position + 1 < short.plans.len() {
            assert(long.plans[long.position + 1] == short.plans[short.position + 1]);
        }
        assert forall|error: GatewayErrorV|
            long.failures.push(failure_of(long, error)) == seq![failure] + short.failures.push(
                #[trigger] failure_of(short, error),
            ) by {
            assert(long.failures.push(failure_of(long, error)) =~= seq![failure]
                + short.failures.push(failure_of(short, error)));
        }
    }
}

/// Any number of steps keeps two runs in step with each other: they hand
/// the same events to the consumer and report the same kind of outcome.
pub proof fn lemma_run_shifted(
    long: RunV,
    short: RunV,
    first: AttemptPlanV,
    failure: FailureV,
    events: Seq<TransportEventV>,
)
    requires
        is_shifted(long, short, first, failure),
        run_wf(short),
    ensures
        is_shifted(spec_run(long, events).0, spec_run(short, events).0, first, failure),
        run_wf(spec_run(short, events).0),
        forwarded(spec_run(long, events).1) == forwarded(spec_run(short, events).1),
        refreshes(spec_run(long, events).1) == refreshes(spec_run(short, events).1),
        match (reported(spec_run(long, events).1), reported(spec_run(short, events).1)) {
            (None, None) => true,
            (Some(Ok(_)), Some(Ok(_))) => true,
            (Some(Err(x)), Some(Err(y))) => x.kind == y.kind && x.message == y.message
                && x.partial == y.partial && x.attempts == seq![failure] + y.attempts,
            _ => false,
        },
    decreases events.len(),
{
    if events.len() > 0 {
        let before_long = spec_run(long, events.drop_last());
        let before_short = spec_run(short, events.drop_last());
        lemma_run_shifted(long, short, first, failure, events.drop_last());
        lemma_step_shifted(before_long.0, before_short.0, first, failure, events.last());
        lemma_actions_push(before_long.1, spec_step(before_long.0, events.last()).1);
        lemma_actions_push(before_short.1, spec_step(before_short.0, events.last()).1);
    }
}

/// Whether `event` reports that the candidate could not be reached, or
/// answered with a failure that is no rejection of its credentials.
pub open spec fn is_network_failure(event: TransportEventV) -> bool {
    match event {
        TransportEventV::Unreachable(_) => true,
        TransportEventV::Rejected { status, .. } => !spec_is_auth_error(status),
        _ => false,
    }
}

/// The failure that a network failure at connection time is recorded as.
pub open spec fn recorded_error(event: TransportEventV) -> GatewayErrorV {
    match event {
        TransportEventV::Unreachable(message) => network_failure(message),
        TransportEventV::Rejected { body, .. } => request_failed(body),
        _ => network_failure(Seq::empty()),
    }
}

/// Fallback changes nothing for the consumer. Where the first candidate
/// cannot be reached, or answers with a failure that is no rejection of its
/// credentials, the run goes on to connect to the second, and whatever the
/// transport then observes, the run hands the consumer the events, and
/// reports the outcome, of a run over the remaining candidates alone. The
/// failure of the first candidate is a network failure; it is recorded in
/// front of the failures of the others and shows nowhere but in the
/// attempts of a failure that the run reports.
pub proof fn law_failed_candidate_is_recorded_not_surfaced(
    first: AttemptPlanV,
    rest: Seq<AttemptPlanV>,
    failure: TransportEventV,
    events: Seq<TransportEventV>,
)
    requires
        rest.len() > 0,
        is_network_failure(failure),
    ensures
        ({
            let with_first = spec_step(spec_start(seq![first] + rest).0, failure);
            let alone = spec_start(rest);
            let recorded = FailureV {
                provider_id: first.provider_id,
                model_name: first.model_name,
                error: recorded_error(failure),
            };
            let long = spec_run(with_first.0, events);
            let short = spec_run(alone.0, events);
            &&& recorded.error.kind == ErrorKind::Network
            &&& is_shifted_action(with_first.1, alone.1, recorded)
            &&& forwarded(long.1) == forwarded(short.1)
            &&& long.0.phase == short.0.phase
            &&& long.0.failures == seq![recorded] + short.0.failures
            &&& match (reported(long.1), reported(short.1)) {
                (None, None) => true,
                (Some(Ok(_)), Some(Ok(_))) => true,
                (Some(Err(x)), Some(Err(y))) => x.kind == y.kind && x.message == y.message
                    && x.partial == y.partial && x.attempts == seq![recorded] + y.attempts,
                _ => false,
            }
        }),
{
    let plans = seq![first] + rest;
    let begun = spec_start(plans).0;
    let with_first = spec_step(begun, failure);
    let alone = spec_start(rest);
    let recorded = FailureV {
        provider_id: first.provider_id,
        model_name: first.model_name,
        error: recorded_error(failure),
    };
    assert(plans[0] == first);
    assert(plans[1] == rest[0]);
    assert(with_first.0.failures =~= seq![recorded] + alone.0.failures);
    assert(is_shifted(with_first.0, alone.0, first, recorded));
    lemma_run_shifted(with_first.0, alone.0, first, recorded, events);
}

/// Whether a run that is at work on its first candidate has recorded no
/// failure and, as long as it has not marked the attempt as one with
/// output, has handed nothing to the consumer; and whether a run that is
/// not reading an answer has not marked its attempt so.
pub open spec fn is_quiet(run: RunV, actions: Seq<ActionV>) -> bool {
    &&& is_live(run.phase) && run.position == 0 ==> run.failures.len() == 0 && (!run.emitted
        ==> forwarded(actions).len() == 0)
    &&& run.phase == Phase::Connecting || run.phase == Phase::Refreshing ==> !run.emitted
    &&& run.position >= 0
}

/// A run from its start is well formed and quiet.
pub proof fn lemma_run_is_quiet(plans: Seq<AttemptPlanV>, events: Seq<TransportEventV>)
    ensures
        run_wf(spec_run(spec_start(plans).0, events).0),
        is_quiet(spec_run(spec_start(plans).0, events).0, spec_run(spec_start(plans).0, events).1),
    decreases events.len(),
{
    if events.len() > 0 {
        let before = spec_run(spec_start(plans).0, events.drop_last());
        lemma_run_is_quiet(plans, events.drop_last());
        lemma_step_keeps_wf(before.0, events.last());
        lemma_actions_push(before.1, spec_step(before.0, events.last()).1);
    }
}

/// A candidate that is given up has shown the consumer nothing. Whatever
/// the transport observed of the first candidate, once the run leaves it for
/// the second, nothing has been handed to the consumer, one failure is on
/// record, that of the first candidate, and from then on the run hands the
/// consumer the events, and reports the outcome, of a run over the
/// remaining candidates alone.
pub proof fn law_given_up_candidate_is_not_surfaced(
    first: AttemptPlanV,
    rest: Seq<AttemptPlanV>,
    head: Seq<TransportEventV>,
    events: Seq<TransportEventV>,
)
    requires
        rest.len() > 0,
        head.len() > 0,
        spec_run(spec_start(seq![first] + rest).0, head.drop_last()).0.position == 0,
        spec_run(spec_start(seq![first] + rest).0, head).0.position == 1,
    ensures
        ({
            let left = spec_run(spec_start(seq![first] + rest).0, head);
            let alone = spec_start(rest);
            let long = spec_run(left.0, events);
            let short = spec_run(alone.0, events);
            &&& forwarded(left.1).len() == 0
            &&& left.0.failures.len() == 1
            &&& left.0.failures[0].provider_id == first.provider_id
            &&& left.0.failures[0].model_name == first.model_name
            &&& is_shifted_action(left.1.last(), alone.1, left.0.failures[0])
            &&& forwarded(long.1) == forwarded(short.1)
            &&& long.0.phase == short.0.phase
            &&& long.0.failures == seq![left.0.failures[0]] + short.0.failures
            &&& match (reported(long.1), reported(short.1)) {
                (None, None) => true,
                (Some(Ok(_)), Some(Ok(_))) => true,
                (Some(Err(x)), Some(Err(y))) => x.kind == y.kind && x.message == y.message
                    && x.partial == y.partial && x.attempts == seq![left.0.failures[0]]
                    + y.attempts,
                _ => false,
            }
        }),
{
    let plans = seq![first] + rest;
    let begun = spec_start(plans).0;
    let before = spec_run(begun, head.drop_last());
    let left = spec_run(begun, head);
    let alone = spec_start(rest);
    lemma_run_is_quiet(plans, head.drop_last());
    lemma_run_is_quiet(plans, head);
    let step = spec_step(before.0, head.last());
    lemma_actions_push(before.1, step.1);
    assert(plans[0] == first);
    assert(plans[1] == rest[0]);
    assert(before.0.plans == plans) by {
        lemma_run_keeps_plans(begun, head.drop_last());
    }
    assert(is_live(before.0.phase));
    let recorded = left.0.failures[0];
    assert(left.0.failures =~= seq![recorded] + alone.0.failures);
    assert(left.0.plans == plans);
    assert(is_shifted(left.0, alone.0, first, recorded));
    lemma_run_shifted(left.0, alone.0, first, recorded, events);
}

/// A run keeps its plans.
pub proof fn lemma_run_keeps_plans(run: RunV, events: Seq<TransportEventV>)
    ensures
        spec_run(run, events).0.plans == run.plans,
    decreases events.len(),
{
    if events.len() > 0 {
        lemma_run_keeps_plans(run, events.drop_last());
    }
}

/// A rejection of the credentials is answered by one refresh, never two.
/// From a candidate whose refresh has not been spent: the first rejection
/// asks for a refresh; once refreshed, the run connects to the same
/// candidate again; the second rejection asks for no refresh, records the
/// candidate as failed with expired credentials, and leaves it.
pub proof fn law_auth_failure_refreshes_once(
    run: RunV,
    first_status: u16,
    first_body: Seq<char>,
    second_status: u16,
    second_body: Seq<char>,
)
    requires
        run_wf(run),
        run.phase == Phase::Connecting,
        !run.refreshed,
        spec_is_auth_error(first_status),
        spec_is_auth_error(second_status),
    ensures
        ({
            let a = spec_step(
                run,
                TransportEventV::Rejected { status: first_status, body: first_body },
            );
            let b = spec_step(a.0, TransportEventV::Refreshed(true));
            let c = spec_step(
                b.0,
                TransportEventV::Rejected { status: second_status, body: second_body },
            );
            &&& a.1 == ActionV::Refresh { provider_id: run.plans[run.position].provider_id }
            &&& b.1 == connect_to(run.plans, run.position)
            &&& !(c.1 is Refresh)
            &&& c.0.position == run.position + 1
            &&& c.0.failures == run.failures.push(failure_of(run, auth_expired()))
            &&& refreshes(seq![a.1, b.1, c.1]) == 1
        }),
{
    let a = spec_step(run, TransportEventV::Rejected { status: first_status, body: first_body });
    let b = spec_step(a.0, TransportEventV::Refreshed(true));
    let c = spec_step(b.0, TransportEventV::Rejected { status: second_status, body: second_body });
    let all = seq![a.1, b.1, c.1];
    assert(all.drop_last() =~= seq![a.1, b.1]);
    assert(seq![a.1, b.1].drop_last() =~= seq![a.1]);
    assert(seq![a.1].drop_last() =~= Seq::<ActionV>::empty());
    reveal_with_fuel(refreshes, 4);
}

/// A refresh is asked for only where none was spent on the candidate, and
/// asking spends it; what is spent stays spent while the run is at the same
/// candidate.
pub proof fn law_refresh_is_spent(run: RunV, event: TransportEventV)
    requires
        run_wf(run),
    ensures
        spec_step(run, event).1 is Refresh ==> !run.refreshed && spec_step(run, event).0.refreshed
            && spec_step(run, event).0.position == run.position,
        run.refreshed && spec_step(run, event).0.position == run.position ==> spec_step(
            run,
            event,
        ).0.refreshed,
{
}

/// After a cancellation is observed nothing more is handed to the consumer:
/// every later step waits and forwards no event.
pub proof fn law_nothing_after_cancellation(run: RunV, events: Seq<TransportEventV>)
    requires
        run.phase == Phase::Cancelled,
    ensures
        spec_run(run, events).0 == run,
        forwarded(spec_run(run, events).1) == Seq::<EventV>::empty(),
        reported(spec_run(run, events).1) is None,
    decreases events.len(),
{
    if events.len() > 0 {
        law_nothing_after_cancellation(run, events.drop_last());
        lemma_actions_push(spec_run(run, events.drop_last()).1, ActionV::Wait);
        assert(forwarded(spec_run(run, events).1) =~= Seq::<EventV>::empty());
    }
}

} // verus!
