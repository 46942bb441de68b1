//! The usage of an OpenAI account reached through OAuth: which request is
//! made with which token, when the token is refreshed, and what the answer
//! is taken for.

use vstd::prelude::*;
use crate::http_status::{
    failure_message, is_auth_error, is_success, spec_failure_message, spec_is_auth_error,
    spec_is_status, spec_is_success,
};
use crate::json::{decode, json_decoding, Decoded, DecodingV, Json, JsonV};
use crate::text::{blank, concat2, is_blank, opt_view, owned, pairs_view};

verus! {

/// The address that usage is asked of.
pub const OPENAI_USAGE_DEFAULT_URL: &'static str = "https://chatgpt.com/backend-api/wham/usage";

/// The failure reported where no token is held at all.
pub const OPENAI_OAUTH_MISSING_MESSAGE: &'static str =
    "OpenAI OAuth not connected. Please connect your OpenAI account in settings.";

/// The failure reported where the tokens held are no longer accepted.
pub const OPENAI_OAUTH_EXPIRED_MESSAGE: &'static str =
    "OpenAI OAuth session expired. Please reconnect your OpenAI account in settings.";

/// The answer to a usage request.
#[derive(Debug, Clone, PartialEq)]
pub struct UsageResponse {
    pub status: u16,
    pub text: String,
}

/// Where the exchange stands.
#[derive(Debug, Clone, Copy, PartialEq, Eq, Structural)]
pub enum UsagePhase {
    /// No token was held; the refresh token is being exchanged.
    FirstRefresh,
    /// Usage is being asked for the first time.
    FirstFetch,
    /// The token was rejected; the refresh token is being exchanged.
    RetryRefresh,
    /// Usage is being asked again, with the new token.
    RetryFetch,
    /// The exchange has its result.
    Finished,
}

/// What the transport is to do next.
#[derive(Debug, PartialEq)]
pub enum UsageStep {
    /// Exchange this refresh token for an access token.
    Refresh { refresh_token: String },
    /// Ask for usage with this access token.
    Fetch { token: String },
    /// Nothing more: this is the result.
    Done(Result<Json, String>),
}

/// What the transport observed.
#[derive(Debug, Clone, PartialEq)]
pub enum UsageEvent {
    /// The exchange of the refresh token gave an access token. The refresh
    /// token held after the exchange comes with it.
    Refreshed { token: String, refresh_setting: Option<String> },
    /// The exchange of the refresh token failed.
    RefreshFailed(String),
    /// The usage request was answered.
    Fetched(UsageResponse),
    /// The usage request could not be made.
    FetchFailed(String),
}

/// The state of one exchange.
#[derive(Debug, Clone, PartialEq)]
pub struct UsageFlow {
    pub phase: UsagePhase,
    pub refresh_token: Option<String>,
}

pub ghost enum UsageStepV {
    Refresh { refresh_token: Seq<char> },
    Fetch { token: Seq<char> },
    Done(Result<JsonV, Seq<char>>),
}

pub ghost enum UsageEventV {
    Refreshed { token: Seq<char>, refresh_setting: Option<Seq<char>> },
    RefreshFailed(Seq<char>),
    Fetched { status: u16, text: Seq<char> },
    FetchFailed(Seq<char>),
}

pub ghost struct UsageFlowV {
    pub phase: UsagePhase,
    pub refresh_token: Option<Seq<char>>,
}

impl View for UsageStep {
    type V = UsageStepV;

    open spec fn view(&self) -> UsageStepV {
        match self {
            UsageStep::Refresh { refresh_token } => UsageStepV::Refresh {
                refresh_token: refresh_token@,
            },
            UsageStep::Fetch { token } => UsageStepV::Fetch { token: token@ },
            UsageStep::Done(Ok(value)) => UsageStepV::Done(Ok(value@)),
            UsageStep::Done(Err(message)) => UsageStepV::Done(Err(message@)),
        }
    }
}

impl View for UsageEvent {
    type V = UsageEventV;

    open spec fn view(&self) -> UsageEventV {
        match self {
            UsageEvent::Refreshed { token, refresh_setting } => UsageEventV::Refreshed {
                token: token@,
                refresh_setting: opt_view(*refresh_setting),
            },
            UsageEvent::RefreshFailed(m) => UsageEventV::RefreshFailed(m@),
            UsageEvent::Fetched(response) => UsageEventV::Fetched {
                status: response.status,
                text: response.text@,
            },
            UsageEvent::FetchFailed(m) => UsageEventV::FetchFailed(m@),
        }
    }
}

impl View for UsageFlow {
    type V = UsageFlowV;

    open spec fn view(&self) -> UsageFlowV {
        UsageFlowV { phase: self.phase, refresh_token: opt_view(self.refresh_token) }
    }
}

/// The headers of a usage request made with `token`.
pub open spec fn spec_usage_headers(token: Seq<char>) -> Seq<(Seq<char>, Seq<char>)> {
    seq![
        ("Accept"@, "application/json"@),
        ("Authorization"@, "Bearer "@ + token),
        ("originator"@, "codex_cli_rs"@),
    ]
}

/// The refresh token that a setting holds: the setting itself, unless it is
/// absent or blank.
pub open spec fn spec_refresh_token(setting: Option<Seq<char>>) -> Option<Seq<char>> {
    match setting {
        Some(value) => if is_blank(value) {
            None
        } else {
            Some(value)
        },
        None => None,
    }
}

/// What the text of a successful answer is taken for: the JSON value it
/// holds, or the failure to read it, in the decoder's own words.
pub open spec fn spec_usage_body(decoding: DecodingV) -> Result<JsonV, Seq<char>> {
    match decoding {
        DecodingV::Value(value) => Ok(value),
        _ => Err("Failed to parse OpenAI usage response: "@ + decoding.words()),
    }
}

/// A finished exchange.
pub open spec fn finished(result: Result<JsonV, Seq<char>>) -> (UsageFlowV, UsageStepV) {
    (UsageFlowV { phase: UsagePhase::Finished, refresh_token: None }, UsageStepV::Done(result))
}

/// How an exchange begins. With an access token, usage is asked with it.
/// Without one, the refresh token is exchanged first; without either, the
/// account is not connected.
pub open spec fn spec_begin(
    access_setting: Option<Seq<char>>,
    refresh_setting: Option<Seq<char>>,
) -> (UsageFlowV, UsageStepV) {
    let refresh_token = spec_refresh_token(refresh_setting);
    if access_setting is Some && !is_blank(access_setting->Some_0) {
        (
            UsageFlowV { phase: UsagePhase::FirstFetch, refresh_token },
            UsageStepV::Fetch { token: access_setting->Some_0 },
        )
    } else {
        match refresh_token {
            Some(token) => (
                UsageFlowV { phase: UsagePhase::FirstRefresh, refresh_token },
                UsageStepV::Refresh { refresh_token: token },
            ),
            None => finished(Err(OPENAI_OAUTH_MISSING_MESSAGE@)),
        }
    }
}

/// One step of an exchange.
///
/// The first answer: a success is read; a rejection of the token leads to
/// one exchange of the refresh token, where one is held, and to the expired
/// failure where none is; any other status is reported with its body. The
/// answer to the retry: a success is read, anything else is the expired
/// failure. A refresh that fails before the first request is reported in
/// its own words; one that fails before the retry is the expired failure.
/// A request that could not be made is reported in its own words.
pub open spec fn spec_advance(flow: UsageFlowV, event: UsageEventV, decoding: DecodingV) -> (
    UsageFlowV,
    UsageStepV,
) {
    match (flow.phase, event) {
        (UsagePhase::FirstRefresh, UsageEventV::Refreshed { token, refresh_setting }) => (
            UsageFlowV {
                phase: UsagePhase::FirstFetch,
                refresh_token: spec_refresh_token(refresh_setting),
            },
            UsageStepV::Fetch { token },
        ),
        (UsagePhase::FirstRefresh, UsageEventV::RefreshFailed(message)) => finished(Err(message)),
        (UsagePhase::FirstFetch, UsageEventV::Fetched { status, text }) => {
            if spec_is_success(status) {
                finished(spec_usage_body(decoding))
            } else if spec_is_auth_error(status) {
                match flow.refresh_token {
                    Some(token) => (
                        UsageFlowV { phase: UsagePhase::RetryRefresh, ..flow },
                        UsageStepV::Refresh { refresh_token: token },
                    ),
                    None => finished(Err(OPENAI_OAUTH_EXPIRED_MESSAGE@)),
                }
            } else {
                finished(
                    Err(spec_failure_message("OpenAI usage request failed"@, status, text, ""@)),
                )
            }
        },
        (UsagePhase::FirstFetch, UsageEventV::FetchFailed(message)) => finished(Err(message)),
        (UsagePhase::RetryRefresh, UsageEventV::Refreshed { token, .. }) => (
            UsageFlowV { phase: UsagePhase::RetryFetch, ..flow },
            UsageStepV::Fetch { token },
        ),
        (UsagePhase::RetryRefresh, UsageEventV::RefreshFailed(_)) => finished(
            Err(OPENAI_OAUTH_EXPIRED_MESSAGE@),
        ),
        (UsagePhase::RetryFetch, UsageEventV::Fetched { status, .. }) => {
            if spec_is_success(status) {
                finished(spec_usage_body(decoding))
            } else {
                finished(Err(OPENAI_OAUTH_EXPIRED_MESSAGE@))
            }
        },
        (UsagePhase::RetryFetch, UsageEventV::FetchFailed(message)) => finished(Err(message)),
        _ => finished(Err(OPENAI_OAUTH_EXPIRED_MESSAGE@)),
    }
}

/// The text that an event carries for decoding: the body of an answer.
pub open spec fn body_of(event: UsageEventV) -> Seq<char> {
    match event {
        UsageEventV::Fetched { text, .. } => text,
        _ => Seq::empty(),
    }
}

/// Whether the status of an answer, where the event is one, is a status
/// that HTTP can carry.
pub open spec fn status_ok(event: UsageEventV) -> bool {
    match event {
        UsageEventV::Fetched { status, .. } => spec_is_status(status),
        _ => true,
    }
}

/// Builds the headers of a usage request made with `token`.
pub fn usage_headers(token: &str) -> (headers: Vec<(String, String)>)
    ensures
        pairs_view(headers@) == spec_usage_headers(token@),
{
    let mut headers: Vec<(String, String)> = Vec::new();
    headers.push((owned("Accept"), owned("application/json")));
    headers.push((owned("Authorization"), concat2("Bearer ", token)));
    headers.push((owned("originator"), owned("codex_cli_rs")));
    headers
}

/// The refresh token that a setting holds.
pub fn load_refresh_token(setting: Option<String>) -> (token: Option<String>)
    ensures
        opt_view(token) == spec_refresh_token(opt_view(setting)),
{
    match setting {
        Some(value) => if blank(value.as_str()) {
            None
        } else {
            Some(value)
        },
        None => None,
    }
}

/// Reads the body of a successful answer, given what decoding it gave.
pub fn usage_from_decoded(decoded: Decoded) -> (result: Result<Json, String>)
    ensures
        match result {
            Ok(value) => spec_usage_body(decoded@) == Ok::<JsonV, Seq<char>>(value@),
            Err(message) => spec_usage_body(decoded@) == Err::<JsonV, Seq<char>>(message@),
        },
{
    match decoded {
        Decoded::Value(value) => Ok(value),
        Decoded::Truncated(words) => Err(
            concat2("Failed to parse OpenAI usage response: ", words.as_str()),
        ),
        Decoded::Malformed(words) => Err(
            concat2("Failed to parse OpenAI usage response: ", words.as_str()),
        ),
    }
}

/// The result with which an exchange ends.
fn finish(flow: &mut UsageFlow, result: Result<Json, String>) -> (step: UsageStep)
    ensures
        (final(flow)@, step@) == finished(
            match result {
                Ok(value) => Ok(value@),
                Err(message) => Err(message@),
            },
        ),
{
    flow.phase = UsagePhase::Finished;
    flow.refresh_token = None;
    UsageStep::Done(result)
}

impl UsageFlow {
    /// Begins an exchange from the access token and the refresh token that
    /// the settings hold.
    pub fn begin(access_setting: Option<String>, refresh_setting: Option<String>) -> (begun: (
        UsageFlow,
        UsageStep,
    ))
        ensures
            (begun.0@, begun.1@) == spec_begin(opt_view(access_setting), opt_view(refresh_setting)),
    {
        let refresh_token = load_refresh_token(refresh_setting);
        let usable = match &access_setting {
            Some(token) => !blank(token.as_str()),
            None => false,
        };
        if usable {
            let token = match access_setting {
                Some(token) => token,
                None => String::new(),
            };
            (UsageFlow { phase: UsagePhase::FirstFetch, refresh_token }, UsageStep::Fetch { token })
        } else {
            match &refresh_token {
                Some(token) => {
                    let step = UsageStep::Refresh { refresh_token: token.clone() };
                    (UsageFlow { phase: UsagePhase::FirstRefresh, refresh_token }, step)
                },
                None => {
                    let mut flow = UsageFlow { phase: UsagePhase::Finished, refresh_token: None };
                    let step = finish(&mut flow, Err(owned(OPENAI_OAUTH_MISSING_MESSAGE)));
                    (flow, step)
                },
            }
        }
    }

    /// Takes what the transport observed, with the body of an answer
    /// already decoded, and decides what it is to do next.
    pub fn advance_decoded(&mut self, event: UsageEvent, decoded: Decoded) -> (step: UsageStep)
        requires
            status_ok(event@),
        ensures
            (final(self)@, step@) == spec_advance(old(self)@, event@, decoded@),
    {
        proof {
            reveal_strlit("");
        }
        match self.phase {
            UsagePhase::FirstRefresh => match event {
                UsageEvent::Refreshed { token, refresh_setting } => {
                    self.phase = UsagePhase::FirstFetch;
                    self.refresh_token = load_refresh_token(refresh_setting);
                    UsageStep::Fetch { token }
                },
                UsageEvent::RefreshFailed(message) => finish(self, Err(message)),
                _ => finish(self, Err(owned(OPENAI_OAUTH_EXPIRED_MESSAGE))),
            },
            UsagePhase::FirstFetch => match event {
                UsageEvent::Fetched(response) => {
                    if is_success(response.status) {
                        finish(self, usage_from_decoded(decoded))
                    } else if is_auth_error(response.status) {
                        match &self.refresh_token {
                            Some(token) => {
                                let step = UsageStep::Refresh { refresh_token: token.clone() };
                                self.phase = UsagePhase::RetryRefresh;
                                step
                            },
                            None => finish(self, Err(owned(OPENAI_OAUTH_EXPIRED_MESSAGE))),
                        }
                    } else {
                        let message = failure_message(
                            "OpenAI usage request failed",
                            response.status,
                            response.text.as_str(),
                            "",
                        );
                        finish(self, Err(message))
                    }
                },
                UsageEvent::FetchFailed(message) => finish(self, Err(message)),
                _ => finish(self, Err(owned(OPENAI_OAUTH_EXPIRED_MESSAGE))),
            },
            UsagePhase::RetryRefresh => match event {
                UsageEvent::Refreshed { token, refresh_setting: _ } => {
                    self.phase = UsagePhase::RetryFetch;
                    UsageStep::Fetch { token }
                },
                _ => finish(self, Err(owned(OPENAI_OAUTH_EXPIRED_MESSAGE))),
            },
            UsagePhase::RetryFetch => match event {
                UsageEvent::Fetched(response) => {
                    if is_success(response.status) {
                        finish(self, usage_from_decoded(decoded))
                    } else {
                        finish(self, Err(owned(OPENAI_OAUTH_EXPIRED_MESSAGE)))
                    }
                },
                UsageEvent::FetchFailed(message) => finish(self, Err(message)),
                _ => finish(self, Err(owned(OPENAI_OAUTH_EXPIRED_MESSAGE))),
            },
            UsagePhase::Finished => finish(self, Err(owned(OPENAI_OAUTH_EXPIRED_MESSAGE))),
        }
    }

    /// Takes what the transport observed and decides what it is to do next.
    pub fn advance(&mut self, event: UsageEvent) -> (step: UsageStep)
        requires
            status_ok(event@),
        ensures
            (final(self)@, step@) == spec_advance(
                old(self)@,
                event@,
                json_decoding(body_of(event@)),
            ),
    {
        let decoded = match &event {
            UsageEvent::Fetched(response) => decode(response.text.as_str()),
            _ => Decoded::Malformed(String::new()),
        };
        self.advance_decoded(event, decoded)
    }
}

/// A rejected token costs at most one more exchange: from the first answer
/// on, a rejection leads to one refresh and one retry, and a rejection of
/// the retry ends the exchange with the expired failure.
pub proof fn law_usage_retries_once(
    refresh_token: Seq<char>,
    status: u16,
    text: Seq<char>,
    token: Seq<char>,
    refresh_setting: Option<Seq<char>>,
    retry_status: u16,
    retry_text: Seq<char>,
    decoding: DecodingV,
)
    requires
        spec_is_auth_error(status),
        !spec_is_success(retry_status),
    ensures
        ({
            let flow = UsageFlowV {
                phase: UsagePhase::FirstFetch,
                refresh_token: Some(refresh_token),
            };
            let a = spec_advance(flow, UsageEventV::Fetched { status, text }, decoding);
            let b = spec_advance(a.0, UsageEventV::Refreshed { token, refresh_setting }, decoding);
            let c = spec_advance(
                b.0,
                UsageEventV::Fetched { status: retry_status, text: retry_text },
                decoding,
            );
            &&& a.1 == UsageStepV::Refresh { refresh_token }
            &&& b.1 == UsageStepV::Fetch { token }
            &&& c.1 == UsageStepV::Done(
                Err::<JsonV, Seq<char>>(OPENAI_OAUTH_EXPIRED_MESSAGE@),
            )
            &&& c.0.phase == UsagePhase::Finished
        }),
{
}

} // verus!
