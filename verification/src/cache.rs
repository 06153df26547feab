//! The engine against a cache: what a whole exchange amounts to, and what
//! holds of every exchange.
//!
//! The cache itself is the caller's. Here it is modelled as a map from
//! fingerprints to entries that serves an entry for as long as its time to
//! live lasts and not a second longer. A real cache may also drop an entry
//! early to stay within its capacity; the engine does not mind, since a miss
//! only sends the request upstream. An exchange is one request taken from
//! `begin` to its answer: the cache is asked where the engine wants it
//! asked, the upstream is called where the engine wants it called, and the
//! answer is stored where the engine says so.

use vstd::prelude::*;
use crate::engine::{
    begin_model,
    dispatch_model,
    hit_response,
    outbound_body,
    outbound_headers,
    step_model,
    storable,
    ActionModel,
    DecodedModel,
    ErrorModel,
    EventModel,
    SessionModel,
    StepModel,
};
use crate::exchange::{RequestModel, ResponseModel};
use crate::fingerprint::cache_key;
use crate::headers::{lemma_unified_is_unalike, sendable, unalike_names};
use crate::method::Method;
use crate::metrics::{
    finish_step,
    finishes,
    gauge_change,
    gauge_step,
    lemma_gauge_change_add,
    EffectModel,
};
use crate::outbound::CallModel;
use crate::settings::Settings;

verus! {

/// One entry of a cache: a response and the second at which it was stored.
pub struct CacheEntry {
    pub response: ResponseModel,
    pub stored_at: nat,
}

/// A cache as contracts see it.
pub type CacheModel = Map<Seq<char>, CacheEntry>;

/// Whether a cache serves an entry for a key at a given second: it holds
/// one, and the entry's time to live has not run out.
pub open spec fn serves(cache: CacheModel, key: Seq<char>, now: nat, ttl_secs: u64) -> bool {
    cache.contains_key(key) && cache[key].stored_at <= now < cache[key].stored_at + ttl_secs
}

/// When and how one exchange takes place.
pub struct Occasion {
    /// The second at which the request arrives.
    pub now: nat,
    /// Milliseconds a lookup in the cache takes.
    pub lookup_ms: u64,
    /// How a call to the upstream would end.
    pub outcome: EventModel,
}

/// One request taken from acceptance to its answer.
pub struct Exchange {
    /// The action that answered the caller.
    pub reply: ActionModel,
    /// The cache after the exchange.
    pub cache: CacheModel,
    /// Every metric effect of the exchange, in order.
    pub effects: Seq<EffectModel>,
    /// Whether the cache was asked.
    pub looked_up: bool,
    /// The call that was made to the upstream, if one was made.
    pub call: Option<CallModel>,
    /// The state the session ended in.
    pub end: SessionModel,
}

/// The ways a call to the upstream can end.
pub open spec fn is_outcome(event: EventModel) -> bool {
    event is TimedOut || event is Unreachable || event is Answered
}

/// What a cache reports for a key.
pub open spec fn lookup_event(
    cache: CacheModel,
    key: Seq<char>,
    settings: Settings,
    occasion: Occasion,
) -> EventModel {
    if serves(cache, key, occasion.now, settings.cache_ttl_secs) {
        EventModel::CacheHit { stored: cache[key].response, elapsed_ms: occasion.lookup_ms }
    } else {
        EventModel::CacheMiss
    }
}

/// A step followed by the step that the report of an event leads to.
pub open spec fn followed_by(before: StepModel, event: EventModel) -> StepModel {
    let after = step_model(before.next, event);
    StepModel { next: after.next, action: after.action, effects: before.effects + after.effects }
}

/// Carries out a lookup where a step asks for one.
pub open spec fn after_lookup(
    cache: CacheModel,
    before: StepModel,
    settings: Settings,
    occasion: Occasion,
) -> StepModel {
    match before.action {
        ActionModel::Lookup { key } => followed_by(
            before,
            lookup_event(cache, key, settings, occasion),
        ),
        _ => before,
    }
}

/// Carries out a call where a step asks for one.
pub open spec fn after_call(before: StepModel, outcome: EventModel) -> StepModel {
    match before.action {
        ActionModel::Forward { .. } => followed_by(before, outcome),
        _ => before,
    }
}

/// The cache after an action: a response that is to be stored is stored,
/// with the second of the exchange.
pub open spec fn stored_after(cache: CacheModel, action: ActionModel, now: nat) -> CacheModel {
    match action {
        ActionModel::Respond { response, store_as: Some(key) } => cache.insert(
            key,
            CacheEntry { response, stored_at: now },
        ),
        _ => cache,
    }
}

/// The exchange that a request leads to, given what the cache holds.
pub open spec fn serve(
    cache: CacheModel,
    request: RequestModel,
    settings: Settings,
    occasion: Occasion,
) -> Exchange {
    let begun = begin_model(request, settings);
    let asked = after_lookup(cache, begun, settings, occasion);
    let done = after_call(asked, occasion.outcome);
    Exchange {
        reply: done.action,
        cache: stored_after(cache, done.action, occasion.now),
        effects: done.effects,
        looked_up: begun.action is Lookup,
        call: match asked.action {
            ActionModel::Forward { call } => Some(call),
            _ => None,
        },
        end: done.next,
    }
}

/// The step that a run of reports leaves a session at, with the effects of
/// the whole run.
pub open spec fn after_reports(start: StepModel, events: Seq<EventModel>) -> StepModel
    decreases events.len(),
{
    if events.len() == 0 {
        start
    } else {
        followed_by(after_reports(start, events.drop_last()), events.last())
    }
}

/// Every exchange ends with an answer to the caller, and the gauge of
/// active requests is taken up once, at the start, and down exactly once,
/// whichever way the exchange ends.
pub proof fn lemma_exchange_completes(
    cache: CacheModel,
    request: RequestModel,
    settings: Settings,
    occasion: Occasion,
)
    requires
        is_outcome(occasion.outcome),
    ensures
        serve(cache, request, settings, occasion).reply.is_final(),
        serve(cache, request, settings, occasion).end is Finished,
        serve(cache, request, settings, occasion).effects.first() is RequestStarted,
        finishes(serve(cache, request, settings, occasion).effects) == 1,
        gauge_change(serve(cache, request, settings, occasion).effects) == 0,
{
    let begun = begin_model(request, settings);
    let asked = after_lookup(cache, begun, settings, occasion);
    lemma_begin_effects(request, settings);
    if begun.action is Lookup {
        let report = lookup_event(cache, begun.action->key, settings, occasion);
        lemma_gauge_change_add(begun.effects, step_model(begun.next, report).effects);
        lemma_step_effects(begun.next, report);
    }
    if asked.action is Forward {
        lemma_gauge_change_add(asked.effects, step_model(asked.next, occasion.outcome).effects);
        lemma_step_effects(asked.next, occasion.outcome);
    }
}

/// The gauge is balanced on every run: whatever a caller reports, and in
/// whatever order, the gauge of active requests stands one above where it
/// stood while the session is active and back where it stood once the
/// session is finished, and it is never taken down twice.
pub proof fn lemma_gauge_balanced(
    request: RequestModel,
    settings: Settings,
    events: Seq<EventModel>,
)
    ensures
        ({
            let run = after_reports(begin_model(request, settings), events);
            &&& run.effects.first() is RequestStarted
            &&& gauge_change(run.effects) == if run.next.active() {
                1int
            } else {
                0int
            }
            &&& finishes(run.effects) == if run.next.active() {
                0nat
            } else {
                1nat
            }
        }),
    decreases events.len(),
{
    lemma_begin_effects(request, settings);
    if events.len() > 0 {
        lemma_gauge_balanced(request, settings, events.drop_last());
        let before = after_reports(begin_model(request, settings), events.drop_last());
        lemma_gauge_change_add(before.effects, step_model(before.next, events.last()).effects);
        lemma_step_effects(before.next, events.last());
    }
}

/// The first step takes the gauge up by one, and down again only where it
/// already ends the session.
pub proof fn lemma_begin_effects(request: RequestModel, settings: Settings)
    ensures
        begin_model(request, settings).effects.first() is RequestStarted,
        begin_model(request, settings).effects.len() >= 1,
        gauge_change(begin_model(request, settings).effects) == if begin_model(
            request,
            settings,
        ).next.active() {
            1int
        } else {
            0int
        },
        finishes(begin_model(request, settings).effects) == if begin_model(
            request,
            settings,
        ).next.active() {
            0nat
        } else {
            1nat
        },
        begin_model(request, settings).action.is_final() <==> !begin_model(
            request,
            settings,
        ).next.active(),
{
    let started = seq![EffectModel::RequestStarted];
    lemma_short_runs(
        EffectModel::RequestStarted,
        EffectModel::RequestFinished,
        EffectModel::RequestFinished,
    );
    lemma_short_runs(
        EffectModel::RequestFinished,
        EffectModel::RequestFinished,
        EffectModel::RequestFinished,
    );
    if !request.cacheable() {
        let first = dispatch_model(request, settings.request_timeout_secs);
        lemma_gauge_change_add(started, first.effects);
    }
}

/// Cache correctness: when a cacheable request finds nothing in the cache
/// and the upstream answers well, the response is fresh; the same request
/// asked again within the time to live, of the cache that the first left
/// behind, is served from it, marked as cached, with the same status,
/// headers and body, and without a call to the upstream.
pub proof fn lemma_repeated_request_is_served_from_cache(
    cache: CacheModel,
    request: RequestModel,
    settings: Settings,
    first: Occasion,
    second: Occasion,
)
    requires
        request.cacheable(),
        !serves(cache, cache_key(request), first.now, settings.cache_ttl_secs),
        first.outcome matches EventModel::Answered { status, body, .. } && storable(
            status,
            DecodedModel::of_body(status, body),
        ),
        first.now <= second.now < first.now + settings.cache_ttl_secs,
    ensures
        ({
            let fresh = serve(cache, request, settings, first);
            let repeated = serve(fresh.cache, request, settings, second);
            &&& fresh.call is Some
            &&& fresh.reply matches ActionModel::Respond { response: initial, .. }
            &&& repeated.reply matches ActionModel::Respond { response: served, .. }
            &&& !initial.cached
            &&& served.cached
            &&& served.status == initial.status
            &&& served.headers == initial.headers
            &&& served.body == initial.body
            &&& repeated.call is None
            &&& repeated.cache == fresh.cache
        }),
{
    let fresh = serve(cache, request, settings, first);
    let key = cache_key(request);
    assert(Method::requested(request.method) == Some(Method::Get));
    assert(fresh.reply matches ActionModel::Respond { response, store_as } && store_as == Some(
        key,
    ));
    assert(fresh.cache.contains_key(key));
    assert(serves(fresh.cache, key, second.now, settings.cache_ttl_secs));
}

/// Expiry: an entry is not served once its time to live is over. The same
/// cacheable request asked again at that time or later goes upstream, and
/// what comes back is fresh.
pub proof fn lemma_expired_entry_is_not_served(
    cache: CacheModel,
    request: RequestModel,
    settings: Settings,
    first: Occasion,
    second: Occasion,
)
    requires
        request.cacheable(),
        !serves(cache, cache_key(request), first.now, settings.cache_ttl_secs),
        first.outcome matches EventModel::Answered { status, body, .. } && storable(
            status,
            DecodedModel::of_body(status, body),
        ),
        second.now >= first.now + settings.cache_ttl_secs,
    ensures
        ({
            let fresh = serve(cache, request, settings, first);
            let later = serve(fresh.cache, request, settings, second);
            &&& fresh.cache.contains_key(cache_key(request))
            &&& !serves(fresh.cache, cache_key(request), second.now, settings.cache_ttl_secs)
            &&& later.looked_up
            &&& later.call is Some
            &&& later.reply matches ActionModel::Respond { response, .. } ==> !response.cached
        }),
{
    let fresh = serve(cache, request, settings, first);
    let key = cache_key(request);
    assert(Method::requested(request.method) == Some(Method::Get));
    assert(fresh.reply matches ActionModel::Respond { response, store_as } && store_as == Some(
        key,
    ));
}

/// Cache exclusion: a request that does not allow the cache, or whose
/// method is not `GET`, never asks the cache, is never served from it and
/// leaves it as it was. So no number of repetitions produces a hit.
pub proof fn lemma_uncacheable_request_bypasses_cache(
    cache: CacheModel,
    request: RequestModel,
    settings: Settings,
    occasion: Occasion,
)
    requires
        !request.use_cache || request.method != "GET"@,
    ensures
        ({
            let exchange = serve(cache, request, settings, occasion);
            &&& !exchange.looked_up
            &&& exchange.cache == cache
            &&& exchange.reply matches ActionModel::Respond { response, .. } ==> !response.cached
        }),
{
}

/// A `POST` request is among those that bypass the cache, whatever its
/// `use_cache` says.
pub proof fn lemma_post_bypasses_cache(
    cache: CacheModel,
    request: RequestModel,
    settings: Settings,
    occasion: Occasion,
)
    requires
        request.method == "POST"@,
    ensures
        ({
            let exchange = serve(cache, request, settings, occasion);
            &&& !exchange.looked_up
            &&& exchange.cache == cache
            &&& exchange.reply matches ActionModel::Respond { response, .. } ==> !response.cached
        }),
{
    reveal_strlit("POST");
    reveal_strlit("GET");
    assert("POST"@.len() != "GET"@.len());
    lemma_uncacheable_request_bypasses_cache(cache, request, settings, occasion);
}

/// What enters the cache: only the fresh response to a cacheable request,
/// under that request's fingerprint, when the upstream answered with a
/// status from 200 to 299; the stored copy is not marked as cached. Every
/// other exchange leaves the cache as it was.
pub proof fn lemma_only_good_answers_are_stored(
    cache: CacheModel,
    request: RequestModel,
    settings: Settings,
    occasion: Occasion,
)
    ensures
        ({
            let exchange = serve(cache, request, settings, occasion);
            match exchange.reply {
                ActionModel::Respond { response, store_as: Some(key) } => {
                    &&& request.cacheable()
                    &&& key == cache_key(request)
                    &&& 200 <= response.status < 300
                    &&& !response.cached
                    &&& exchange.call is Some
                    &&& exchange.cache == cache.insert(
                        key,
                        CacheEntry { response, stored_at: occasion.now },
                    )
                },
                _ => exchange.cache == cache,
            }
        }),
{
}

/// A hit is served at once: the stored response comes back marked as
/// cached, with the time this request took, and the upstream is not called.
pub proof fn lemma_hit_spares_upstream(
    cache: CacheModel,
    request: RequestModel,
    settings: Settings,
    occasion: Occasion,
)
    requires
        request.cacheable(),
        serves(cache, cache_key(request), occasion.now, settings.cache_ttl_secs),
    ensures
        ({
            let exchange = serve(cache, request, settings, occasion);
            &&& exchange.reply == ActionModel::Respond {
                response: hit_response(cache[cache_key(request)].response, occasion.lookup_ms),
                store_as: None,
            }
            &&& exchange.call is None
            &&& exchange.cache == cache
        }),
{
}

/// The call an exchange makes is the request's own: its method, its URL,
/// those of its headers that can be encoded, no name twice, its body, and
/// the configured timeout as its bound.
pub proof fn lemma_call_follows_request(
    cache: CacheModel,
    request: RequestModel,
    settings: Settings,
    occasion: Occasion,
)
    ensures
        ({
            let exchange = serve(cache, request, settings, occasion);
            exchange.call matches Some(call) ==> {
                &&& Method::requested(request.method) == Some(call.method)
                &&& call.url == request.url
                &&& call.headers == outbound_headers(request.headers)
                &&& unalike_names(call.headers)
                &&& call.body == outbound_body(request.body)
                &&& call.timeout_secs == Some(settings.request_timeout_secs)
            }
        }),
{
    match request.headers {
        Some(list) => {
            lemma_unified_is_unalike(sendable(list));
        },
        None => {},
    }
}

/// A request with a method the proxy does not forward fails as such, with
/// status 400, before the cache is asked or the upstream called.
pub proof fn lemma_unsupported_method_fails_early(
    cache: CacheModel,
    request: RequestModel,
    settings: Settings,
    occasion: Occasion,
)
    requires
        Method::requested(request.method) is None,
    ensures
        ({
            let exchange = serve(cache, request, settings, occasion);
            &&& exchange.reply == ActionModel::Fail { error: ErrorModel::UnsupportedMethod }
            &&& ErrorModel::UnsupportedMethod.status_code() == 400
            &&& !exchange.looked_up
            &&& exchange.call is None
            &&& exchange.cache == cache
        }),
{
}

/// A call that runs out of time ends the exchange with a timeout, which
/// the caller sees as status 504; one that fails otherwise ends it with
/// status 500. Neither touches the cache.
pub proof fn lemma_failed_call_is_reported(
    cache: CacheModel,
    request: RequestModel,
    settings: Settings,
    occasion: Occasion,
)
    requires
        occasion.outcome is TimedOut || occasion.outcome is Unreachable,
    ensures
        ({
            let exchange = serve(cache, request, settings, occasion);
            exchange.call is Some ==> {
                &&& exchange.reply matches ActionModel::Fail { error }
                &&& occasion.outcome is TimedOut ==> error == ErrorModel::Timeout
                    && error.status_code() == 504
                &&& occasion.outcome matches EventModel::Unreachable { reason } ==> error
                    == (ErrorModel::UpstreamUnreachable { reason }) && error.status_code() == 500
                &&& exchange.cache == cache
            }
        }),
{
}

/// One step moves the gauge down by one exactly when it ends the session,
/// and never up.
pub proof fn lemma_step_effects(session: SessionModel, event: EventModel)
    ensures
        gauge_change(step_model(session, event).effects) == if session.active() && !step_model(
            session,
            event,
        ).next.active() {
            -1int
        } else {
            0int
        },
        finishes(step_model(session, event).effects) == if session.active() && !step_model(
            session,
            event,
        ).next.active() {
            1nat
        } else {
            0nat
        },
        step_model(session, event).action.is_final() <==> session.active() && !step_model(
            session,
            event,
        ).next.active(),
{
    let taken = step_model(session, event);
    lemma_short_runs(
        EffectModel::RequestFinished,
        EffectModel::RequestFinished,
        EffectModel::RequestFinished,
    );
    lemma_short_runs(
        EffectModel::CacheHit,
        EffectModel::RequestFinished,
        EffectModel::RequestFinished,
    );
    match (session, event) {
        (
            SessionModel::AwaitingUpstream { method, .. },
            EventModel::Answered { status, elapsed_ms, .. },
        ) => {
            lemma_short_runs(
                EffectModel::UpstreamAnswered { method, status },
                EffectModel::DurationObserved { millis: elapsed_ms },
                EffectModel::RequestFinished,
            );
        },
        _ => {},
    }
}

/// What a run of at most three effects does to the gauge.
pub proof fn lemma_short_runs(a: EffectModel, b: EffectModel, c: EffectModel)
    ensures
        gauge_change(Seq::empty()) == 0,
        gauge_change(seq![a]) == gauge_step(a),
        gauge_change(seq![a, b]) == gauge_step(a) + gauge_step(b),
        gauge_change(seq![a, b, c]) == gauge_step(a) + gauge_step(b) + gauge_step(c),
        finishes(Seq::empty()) == 0,
        finishes(seq![a]) == finish_step(a),
        finishes(seq![a, b]) == finish_step(a) + finish_step(b),
        finishes(seq![a, b, c]) == finish_step(a) + finish_step(b) + finish_step(c),
{
    assert(seq![a].drop_last() =~= Seq::empty());
    assert(seq![a, b].drop_last() =~= seq![a]);
    assert(seq![a, b, c].drop_last() =~= seq![a, b]);
    assert(gauge_change(Seq::<EffectModel>::empty()) == 0);
    assert(finishes(Seq::<EffectModel>::empty()) == 0);
    assert(gauge_change(seq![a]) == gauge_step(a));
    assert(gauge_change(seq![a, b]) == gauge_change(seq![a]) + gauge_step(b));
    assert(gauge_change(seq![a, b, c]) == gauge_change(seq![a, b]) + gauge_step(c));
    assert(finishes(seq![a]) == finish_step(a));
    assert(finishes(seq![a, b]) == finishes(seq![a]) + finish_step(b));
    assert(finishes(seq![a, b, c]) == finishes(seq![a, b]) + finish_step(c));
}

} // verus!
