//! The forwarding engine: one HTTP call made on a caller's behalf, with the
//! cache consulted before it and filled after it.
//!
//! The engine is a state machine. `begin` accepts a request and says what to
//! do first; the caller does it and reports what happened with `step`, until
//! an action ends the session. Every step also lists the metric effects it
//! calls for. What the machine does is defined once, on models, by
//! `begin_model` and `step_model`; the executable functions are proved to do
//! exactly that.

use vstd::prelude::*;
use crate::exchange::{ProxyRequest, ProxyResponse, RequestModel, ResponseModel};
use crate::fingerprint::{cache_key, generate_cache_key};
use crate::headers::{
    collapse_headers,
    collapsed,
    encodable_headers,
    sendable,
    unified,
    unify_headers,
    HeaderSeq,
    RawHeaderSeq,
};
use crate::json::{json_parse, json_text, parse, parse_view};
use crate::method::Method;
use crate::metrics::{EffectModel, MetricEffect};
use crate::outbound::{BodyModel, CallModel, OutboundCall, Payload, PayloadModel, UpstreamBody};
use crate::settings::Settings;
use crate::text::{labelled, owned, same_text};

verus! {

/// Why the engine could not produce a response.
#[derive(Debug, Clone, PartialEq)]
pub enum EngineError {
    /// The request named a method the proxy does not forward.
    UnsupportedMethod,
    /// The upstream did not answer in time.
    Timeout,
    /// The upstream could not be reached; the reason is the transport's.
    UpstreamUnreachable { reason: String },
}

/// An `EngineError` as contracts see it.
pub enum ErrorModel {
    UnsupportedMethod,
    Timeout,
    UpstreamUnreachable { reason: Seq<char> },
}

impl View for EngineError {
    type V = ErrorModel;

    open spec fn view(&self) -> ErrorModel {
        match self {
            EngineError::UnsupportedMethod => ErrorModel::UnsupportedMethod,
            EngineError::Timeout => ErrorModel::Timeout,
            EngineError::UpstreamUnreachable { reason } => ErrorModel::UpstreamUnreachable {
                reason: reason@,
            },
        }
    }
}

impl ErrorModel {
    /// The HTTP status the caller sees: 400 for a request the proxy will
    /// not forward, 504 for a timeout, 500 for every other failure.
    pub open spec fn status_code(self) -> u16 {
        match self {
            ErrorModel::UnsupportedMethod => 400,
            ErrorModel::Timeout => 504,
            ErrorModel::UpstreamUnreachable { .. } => 500,
        }
    }

    /// The sentence the caller sees.
    pub open spec fn message(self) -> Seq<char> {
        match self {
            ErrorModel::UnsupportedMethod => "Unsupported HTTP method"@,
            ErrorModel::Timeout => "Request timeout"@,
            ErrorModel::UpstreamUnreachable { reason } => "Request failed: "@ + reason,
        }
    }
}

impl EngineError {
    /// The HTTP status to answer the caller with.
    pub fn status_code(&self) -> (code: u16)
        ensures
            code == self@.status_code(),
    {
        match self {
            EngineError::UnsupportedMethod => 400,
            EngineError::Timeout => 504,
            EngineError::UpstreamUnreachable { .. } => 500,
        }
    }

    /// The sentence to answer the caller with.
    pub fn message(&self) -> (text: String)
        ensures
            text@ == self@.message(),
    {
        match self {
            EngineError::UnsupportedMethod => owned("Unsupported HTTP method"),
            EngineError::Timeout => owned("Request timeout"),
            EngineError::UpstreamUnreachable { reason } => labelled(
                "Request failed: ",
                reason.as_str(),
            ),
        }
    }
}

/// What became of an upstream's body.
#[derive(Debug, PartialEq)]
pub enum Decoded {
    /// The body was a JSON document.
    Document { document: serde_json::Value },
    /// There was no body and none was due: the response carries `null`.
    Nothing,
    /// The body was not JSON, or could not be read to its end.
    Malformed,
}

/// A `Decoded` as contracts see it; the document is its JSON text.
pub enum DecodedModel {
    Document { document: Seq<char> },
    Nothing,
    Malformed,
}

impl View for Decoded {
    type V = DecodedModel;

    open spec fn view(&self) -> DecodedModel {
        match self {
            Decoded::Document { document } => DecodedModel::Document {
                document: json_text(*document),
            },
            Decoded::Nothing => DecodedModel::Nothing,
            Decoded::Malformed => DecodedModel::Malformed,
        }
    }
}

impl DecodedModel {
    /// What a parse of the body amounts to.
    pub open spec fn of_parse(parsed: Result<Seq<char>, Seq<char>>) -> DecodedModel {
        match parsed {
            Ok(document) => DecodedModel::Document { document },
            Err(_) => DecodedModel::Malformed,
        }
    }

    /// What a body amounts to. An empty body decodes to nothing where the
    /// upstream reported, with status 204, that it has no content, and is
    /// malformed otherwise; any other body is what `serde_json` makes of it.
    pub open spec fn of_body(status: u16, body: BodyModel) -> DecodedModel {
        match body {
            BodyModel::Unreadable { .. } => DecodedModel::Malformed,
            BodyModel::Bytes { bytes } => if bytes.len() == 0 {
                if status == 204 {
                    DecodedModel::Nothing
                } else {
                    DecodedModel::Malformed
                }
            } else {
                DecodedModel::of_parse(json_parse(bytes))
            },
        }
    }

    /// The body the response carries: the document, or `null`.
    pub open spec fn body(self) -> Option<Seq<char>> {
        match self {
            DecodedModel::Document { document } => Some(document),
            _ => None,
        }
    }

    /// Whether the body was decoded.
    pub open spec fn succeeded(self) -> bool {
        !(self is Malformed)
    }
}

impl Decoded {
    /// Turns the outcome of a parse into what the body amounts to.
    pub fn from_parse(parsed: Result<serde_json::Value, serde_json::Error>) -> (decoded: Decoded)
        ensures
            decoded@ == DecodedModel::of_parse(parse_view(parsed)),
    {
        match parsed {
            Ok(document) => Decoded::Document { document },
            Err(_) => Decoded::Malformed,
        }
    }

    /// Decodes the body of an upstream's answer.
    pub fn from_body(status: u16, body: &UpstreamBody) -> (decoded: Decoded)
        ensures
            decoded@ == DecodedModel::of_body(status, body@),
    {
        match body {
            UpstreamBody::Unreadable { .. } => Decoded::Malformed,
            UpstreamBody::Bytes { bytes } => {
                if bytes.len() == 0 {
                    if status == 204 {
                        Decoded::Nothing
                    } else {
                        Decoded::Malformed
                    }
                } else {
                    Decoded::from_parse(parse(bytes.as_slice()))
                }
            },
        }
    }
}

/// What the caller reports to the engine.
#[derive(Debug, Clone, PartialEq)]
pub enum ProxyEvent {
    /// The cache holds nothing under the key.
    CacheMiss,
    /// The cache holds this response under the key; the lookup ended
    /// `elapsed_ms` after the request was accepted.
    CacheHit { stored: ProxyResponse, elapsed_ms: u64 },
    /// The call was abandoned because its time ran out.
    TimedOut,
    /// The call failed before any answer came.
    Unreachable { reason: String },
    /// The upstream answered. A header's value is absent where it could not
    /// be read as text. The answer was complete `elapsed_ms` after the
    /// request was accepted, at the instant `timestamp`.
    Answered {
        status: u16,
        headers: Vec<(String, Option<String>)>,
        body: UpstreamBody,
        elapsed_ms: u64,
        timestamp: String,
    },
}

/// A `ProxyEvent` as contracts see it.
pub enum EventModel {
    CacheMiss,
    CacheHit { stored: ResponseModel, elapsed_ms: u64 },
    TimedOut,
    Unreachable { reason: Seq<char> },
    Answered {
        status: u16,
        headers: RawHeaderSeq,
        body: BodyModel,
        elapsed_ms: u64,
        timestamp: Seq<char>,
    },
}

impl View for ProxyEvent {
    type V = EventModel;

    open spec fn view(&self) -> EventModel {
        match self {
            ProxyEvent::CacheMiss => EventModel::CacheMiss,
            ProxyEvent::CacheHit { stored, elapsed_ms } => EventModel::CacheHit {
                stored: stored@,
                elapsed_ms: *elapsed_ms,
            },
            ProxyEvent::TimedOut => EventModel::TimedOut,
            ProxyEvent::Unreachable { reason } => EventModel::Unreachable { reason: reason@ },
            ProxyEvent::Answered {
                status,
                headers,
                body,
                elapsed_ms,
                timestamp,
            } => EventModel::Answered {
                status: *status,
                headers: headers.deep_view(),
                body: body@,
                elapsed_ms: *elapsed_ms,
                timestamp: timestamp@,
            },
        }
    }
}

/// What the engine asks the caller to do.
#[derive(Debug, PartialEq)]
pub enum ProxyAction {
    /// Look the key up in the cache and report a hit or a miss.
    Lookup { key: String },
    /// Make the call and report how it ended.
    Forward { call: OutboundCall },
    /// Answer the caller with the response; where `store_as` names a key,
    /// put a copy of the response into the cache under it first.
    Respond { response: ProxyResponse, store_as: Option<String> },
    /// Answer the caller with the error.
    Fail { error: EngineError },
    /// Nothing: the event did not belong to the state of the session.
    Ignore,
}

/// A `ProxyAction` as contracts see it.
pub enum ActionModel {
    Lookup { key: Seq<char> },
    Forward { call: CallModel },
    Respond { response: ResponseModel, store_as: Option<Seq<char>> },
    Fail { error: ErrorModel },
    Ignore,
}

impl View for ProxyAction {
    type V = ActionModel;

    open spec fn view(&self) -> ActionModel {
        match self {
            ProxyAction::Lookup { key } => ActionModel::Lookup { key: key@ },
            ProxyAction::Forward { call } => ActionModel::Forward { call: call@ },
            ProxyAction::Respond { response, store_as } => ActionModel::Respond {
                response: response@,
                store_as: store_as.deep_view(),
            },
            ProxyAction::Fail { error } => ActionModel::Fail { error: error@ },
            ProxyAction::Ignore => ActionModel::Ignore,
        }
    }
}

impl ActionModel {
    /// Whether the action answers the caller and so ends the session.
    pub open spec fn is_final(self) -> bool {
        self is Respond || self is Fail
    }
}

/// Where one forwarded request stands.
#[derive(Debug, PartialEq)]
pub enum ProxySession {
    /// The cache was asked for the request's key.
    AwaitingCache { request: ProxyRequest, timeout_secs: u64 },
    /// The call is on its way. `method` is the request's own spelling of its
    /// method; `store_key` is the key to store a good answer under, present
    /// exactly for a cacheable request.
    AwaitingUpstream { method: String, store_key: Option<String> },
    /// The caller has its answer.
    Finished,
}

/// A `ProxySession` as contracts see it.
pub enum SessionModel {
    AwaitingCache { request: RequestModel, timeout_secs: u64 },
    AwaitingUpstream { method: Seq<char>, store_key: Option<Seq<char>> },
    Finished,
}

impl View for ProxySession {
    type V = SessionModel;

    open spec fn view(&self) -> SessionModel {
        match self {
            ProxySession::AwaitingCache { request, timeout_secs } => SessionModel::AwaitingCache {
                request: request@,
                timeout_secs: *timeout_secs,
            },
            ProxySession::AwaitingUpstream { method, store_key } => SessionModel::AwaitingUpstream {
                method: method@,
                store_key: store_key.deep_view(),
            },
            ProxySession::Finished => SessionModel::Finished,
        }
    }
}

impl SessionModel {
    /// Whether the session still owes the caller an answer.
    pub open spec fn active(self) -> bool {
        !(self is Finished)
    }
}

/// One step of the engine: the state it leaves the session in, what the
/// caller is to do, and the metric effects to apply, in order.
#[derive(Debug, PartialEq)]
pub struct ProxyStep {
    pub next: ProxySession,
    pub action: ProxyAction,
    pub effects: Vec<MetricEffect>,
}

/// A `ProxyStep` as contracts see it.
pub struct StepModel {
    pub next: SessionModel,
    pub action: ActionModel,
    pub effects: Seq<EffectModel>,
}

impl View for ProxyStep {
    type V = StepModel;

    open spec fn view(&self) -> StepModel {
        StepModel {
            next: self.next@,
            action: self.action@,
            effects: self.effects.deep_view(),
        }
    }
}

/// The headers that go out with a request: those of the caller's that can
/// be encoded, one per name, case aside; of several of one name the last.
pub open spec fn outbound_headers(headers: Option<HeaderSeq>) -> HeaderSeq {
    match headers {
        None => Seq::empty(),
        Some(list) => unified(sendable(list)),
    }
}

/// The body that goes out with a request: the caller's document, if any.
pub open spec fn outbound_body(body: Option<Seq<char>>) -> Option<PayloadModel> {
    match body {
        None => None,
        Some(document) => Some(PayloadModel::Json { document }),
    }
}

/// The key under which a good answer to a request is stored: its
/// fingerprint if it is cacheable, none otherwise.
pub open spec fn store_key_of(request: RequestModel) -> Option<Seq<char>> {
    if request.cacheable() {
        Some(cache_key(request))
    } else {
        None
    }
}

/// The step that ends a session with an error.
pub open spec fn failure_model(error: ErrorModel) -> StepModel {
    StepModel {
        next: SessionModel::Finished,
        action: ActionModel::Fail { error },
        effects: seq![EffectModel::RequestFinished],
    }
}

/// The step that sends a request upstream, given the method its name
/// stands for: an unsupported method fails before any network activity.
pub open spec fn forward_model(
    request: RequestModel,
    method: Option<Method>,
    store_key: Option<Seq<char>>,
    timeout_secs: u64,
) -> StepModel {
    match method {
        None => failure_model(ErrorModel::UnsupportedMethod),
        Some(method) => StepModel {
            next: SessionModel::AwaitingUpstream { method: request.method, store_key },
            action: ActionModel::Forward {
                call: CallModel {
                    method,
                    url: request.url,
                    headers: outbound_headers(request.headers),
                    body: outbound_body(request.body),
                    timeout_secs: Some(timeout_secs),
                },
            },
            effects: Seq::empty(),
        },
    }
}

/// The step that follows when the cache has nothing to offer.
pub open spec fn dispatch_model(request: RequestModel, timeout_secs: u64) -> StepModel {
    forward_model(
        request,
        Method::requested(request.method),
        store_key_of(request),
        timeout_secs,
    )
}

/// The first step for a request: a cacheable one goes to the cache, any
/// other straight upstream. Either way the request counts as started.
pub open spec fn begin_model(request: RequestModel, settings: Settings) -> StepModel {
    if request.cacheable() {
        StepModel {
            next: SessionModel::AwaitingCache {
                request,
                timeout_secs: settings.request_timeout_secs,
            },
            action: ActionModel::Lookup { key: cache_key(request) },
            effects: seq![EffectModel::RequestStarted],
        }
    } else {
        let first = dispatch_model(request, settings.request_timeout_secs);
        StepModel {
            next: first.next,
            action: first.action,
            effects: seq![EffectModel::RequestStarted] + first.effects,
        }
    }
}

/// The copy of a stored response that a hit returns: marked as cached, with
/// the time this request took.
pub open spec fn hit_response(stored: ResponseModel, elapsed_ms: u64) -> ResponseModel {
    ResponseModel {
        status: stored.status,
        headers: stored.headers,
        body: stored.body,
        cached: true,
        timestamp: stored.timestamp,
        duration_ms: elapsed_ms,
    }
}

/// The step that serves a cache hit, without contacting the upstream.
pub open spec fn hit_model(stored: ResponseModel, elapsed_ms: u64) -> StepModel {
    StepModel {
        next: SessionModel::Finished,
        action: ActionModel::Respond {
            response: hit_response(stored, elapsed_ms),
            store_as: None,
        },
        effects: seq![EffectModel::CacheHit, EffectModel::RequestFinished],
    }
}

/// The response made from an upstream's answer: never marked as cached,
/// with `null` for a body that could not be decoded.
pub open spec fn fresh_response(
    status: u16,
    headers: RawHeaderSeq,
    decoded: DecodedModel,
    elapsed_ms: u64,
    timestamp: Seq<char>,
) -> ResponseModel {
    ResponseModel {
        status,
        headers: collapsed(headers),
        body: decoded.body(),
        cached: false,
        timestamp,
        duration_ms: elapsed_ms,
    }
}

/// Whether an answer goes into the cache under the session's key: its body
/// was decoded and its status is one of success.
pub open spec fn storable(status: u16, decoded: DecodedModel) -> bool {
    decoded.succeeded() && 200 <= status < 300
}

/// The step that answers the caller from what the upstream sent, given what
/// its body decoded to.
pub open spec fn answer_model(
    method: Seq<char>,
    store_key: Option<Seq<char>>,
    status: u16,
    headers: RawHeaderSeq,
    decoded: DecodedModel,
    elapsed_ms: u64,
    timestamp: Seq<char>,
) -> StepModel {
    StepModel {
        next: SessionModel::Finished,
        action: ActionModel::Respond {
            response: fresh_response(status, headers, decoded, elapsed_ms, timestamp),
            store_as: if storable(status, decoded) {
                store_key
            } else {
                None
            },
        },
        effects: seq![
            EffectModel::UpstreamAnswered { method, status },
            EffectModel::DurationObserved { millis: elapsed_ms },
            EffectModel::RequestFinished,
        ],
    }
}

/// The step for an event that does not belong to the session's state:
/// nothing happens.
pub open spec fn ignore_model(session: SessionModel) -> StepModel {
    StepModel { next: session, action: ActionModel::Ignore, effects: Seq::empty() }
}

/// What the engine does with an event.
pub open spec fn step_model(session: SessionModel, event: EventModel) -> StepModel {
    match (session, event) {
        (SessionModel::AwaitingCache { request, timeout_secs }, EventModel::CacheMiss) => {
            dispatch_model(request, timeout_secs)
        },
        (SessionModel::AwaitingCache { .. }, EventModel::CacheHit { stored, elapsed_ms }) => {
            hit_model(stored, elapsed_ms)
        },
        (SessionModel::AwaitingUpstream { .. }, EventModel::TimedOut) => {
            failure_model(ErrorModel::Timeout)
        },
        (SessionModel::AwaitingUpstream { .. }, EventModel::Unreachable { reason }) => {
            failure_model(ErrorModel::UpstreamUnreachable { reason })
        },
        (
            SessionModel::AwaitingUpstream { method, store_key },
            EventModel::Answered { status, headers, body, elapsed_ms, timestamp },
        ) => answer_model(
            method,
            store_key,
            status,
            headers,
            DecodedModel::of_body(status, body),
            elapsed_ms,
            timestamp,
        ),
        _ => ignore_model(session),
    }
}

/// Whether the cache may be consulted and filled for a request.
pub fn is_cacheable(request: &ProxyRequest) -> (cacheable: bool)
    ensures
        cacheable == request@.cacheable(),
{
    request.use_cache && same_text(request.method.as_str(), "GET")
}

/// Ends a session with an error.
pub fn fail_with(error: EngineError) -> (taken: ProxyStep)
    ensures
        taken@ == failure_model(error@),
{
    let mut effects: Vec<MetricEffect> = Vec::new();
    effects.push(MetricEffect::RequestFinished);
    assert(effects.deep_view() =~= seq![EffectModel::RequestFinished]);
    ProxyStep { next: ProxySession::Finished, action: ProxyAction::Fail { error }, effects }
}

/// Sends a request upstream as the method its name was read as, or fails it
/// where the name was read as none.
pub fn forward_as(
    request: ProxyRequest,
    method: Option<Method>,
    store_key: Option<String>,
    timeout_secs: u64,
) -> (taken: ProxyStep)
    ensures
        taken@ == forward_model(request@, method, store_key.deep_view(), timeout_secs),
{
    match method {
        None => fail_with(EngineError::UnsupportedMethod),
        Some(method) => {
            let headers = match &request.headers {
                None => Vec::new(),
                Some(list) => {
                    let kept = encodable_headers(list);
                    unify_headers(&kept)
                },
            };
            assert(headers.deep_view() =~= outbound_headers(request@.headers));
            let body = match request.body {
                None => None,
                Some(document) => Some(Payload::Json { document }),
            };
            let call = OutboundCall {
                method,
                url: request.url,
                headers,
                body,
                timeout_secs: Some(timeout_secs),
            };
            let effects: Vec<MetricEffect> = Vec::new();
            assert(effects.deep_view() =~= Seq::empty());
            ProxyStep {
                next: ProxySession::AwaitingUpstream { method: request.method, store_key },
                action: ProxyAction::Forward { call },
                effects,
            }
        },
    }
}

/// Takes a request upstream after the cache had nothing to offer, or
/// without asking the cache at all.
pub fn dispatch(request: ProxyRequest, timeout_secs: u64) -> (taken: ProxyStep)
    ensures
        taken@ == dispatch_model(request@, timeout_secs),
{
    let method = Method::parse(request.method.as_str());
    let store_key = if is_cacheable(&request) {
        Some(generate_cache_key(&request))
    } else {
        None
    };
    forward_as(request, method, store_key, timeout_secs)
}

/// Accepts a request and says what to do first.
pub fn begin(request: ProxyRequest, settings: &Settings) -> (taken: ProxyStep)
    ensures
        taken@ == begin_model(request@, *settings),
{
    let mut effects: Vec<MetricEffect> = Vec::new();
    effects.push(MetricEffect::RequestStarted);
    assert(effects.deep_view() =~= seq![EffectModel::RequestStarted]);
    if is_cacheable(&request) {
        let key = generate_cache_key(&request);
        ProxyStep {
            next: ProxySession::AwaitingCache {
                request,
                timeout_secs: settings.request_timeout_secs,
            },
            action: ProxyAction::Lookup { key },
            effects,
        }
    } else {
        let first = dispatch(request, settings.request_timeout_secs);
        let ProxyStep { next, action, effects: mut later } = first;
        let ghost started = effects.deep_view();
        let ghost rest = later.deep_view();
        effects.append(&mut later);
        assert(effects.deep_view() =~= started + rest);
        ProxyStep { next, action, effects }
    }
}

/// Serves a response from the cache.
pub fn serve_hit(stored: ProxyResponse, elapsed_ms: u64) -> (taken: ProxyStep)
    ensures
        taken@ == hit_model(stored@, elapsed_ms),
{
    let mut effects: Vec<MetricEffect> = Vec::new();
    effects.push(MetricEffect::CacheHit);
    effects.push(MetricEffect::RequestFinished);
    assert(effects.deep_view() =~= seq![EffectModel::CacheHit, EffectModel::RequestFinished]);
    let response = ProxyResponse {
        status: stored.status,
        headers: stored.headers,
        body: stored.body,
        cached: true,
        timestamp: stored.timestamp,
        duration_ms: elapsed_ms,
    };
    ProxyStep {
        next: ProxySession::Finished,
        action: ProxyAction::Respond { response, store_as: None },
        effects,
    }
}

/// Answers the caller from what the upstream sent and what its body
/// decoded to. `method` is the request's own spelling of its method and
/// `store_key` the key of a cacheable request.
pub fn answer(
    method: String,
    store_key: Option<String>,
    status: u16,
    headers: &Vec<(String, Option<String>)>,
    decoded: Decoded,
    elapsed_ms: u64,
    timestamp: String,
) -> (taken: ProxyStep)
    ensures
        taken@ == answer_model(
            method@,
            store_key.deep_view(),
            status,
            headers.deep_view(),
            decoded@,
            elapsed_ms,
            timestamp@,
        ),
{
    let mut effects: Vec<MetricEffect> = Vec::new();
    effects.push(MetricEffect::UpstreamAnswered { method, status });
    effects.push(MetricEffect::DurationObserved { millis: elapsed_ms });
    effects.push(MetricEffect::RequestFinished);
    assert(effects.deep_view() =~= seq![
        EffectModel::UpstreamAnswered { method: method@, status },
        EffectModel::DurationObserved { millis: elapsed_ms },
        EffectModel::RequestFinished,
    ]);
    let keep = 200 <= status && status < 300 && match decoded {
        Decoded::Malformed => false,
        _ => true,
    };
    let store_as = if keep {
        store_key
    } else {
        None
    };
    let body = match decoded {
        Decoded::Document { document } => Some(document),
        _ => None,
    };
    let response = ProxyResponse {
        status,
        headers: collapse_headers(headers),
        body,
        cached: false,
        timestamp,
        duration_ms: elapsed_ms,
    };
    ProxyStep {
        next: ProxySession::Finished,
        action: ProxyAction::Respond { response, store_as },
        effects,
    }
}

/// Leaves a session as it is.
pub fn ignore(session: ProxySession) -> (taken: ProxyStep)
    ensures
        taken@ == ignore_model(session@),
{
    let effects: Vec<MetricEffect> = Vec::new();
    assert(effects.deep_view() =~= Seq::empty());
    ProxyStep { next: session, action: ProxyAction::Ignore, effects }
}

/// Takes the session one step further with what the caller reports.
pub fn step(session: ProxySession, event: ProxyEvent) -> (taken: ProxyStep)
    ensures
        taken@ == step_model(session@, event@),
{
    match session {
        ProxySession::AwaitingCache { request, timeout_secs } => match event {
            ProxyEvent::CacheMiss => dispatch(request, timeout_secs),
            ProxyEvent::CacheHit { stored, elapsed_ms } => serve_hit(stored, elapsed_ms),
            _ => ignore(ProxySession::AwaitingCache { request, timeout_secs }),
        },
        ProxySession::AwaitingUpstream { method, store_key } => match event {
            ProxyEvent::TimedOut => fail_with(EngineError::Timeout),
            ProxyEvent::Unreachable { reason } => fail_with(
                EngineError::UpstreamUnreachable { reason },
            ),
            ProxyEvent::Answered { status, headers, body, elapsed_ms, timestamp } => {
                let decoded = Decoded::from_body(status, &body);
                answer(method, store_key, status, &headers, decoded, elapsed_ms, timestamp)
            },
            _ => ignore(ProxySession::AwaitingUpstream { method, store_key }),
        },
        ProxySession::Finished => ignore(ProxySession::Finished),
    }
}

} // verus!
