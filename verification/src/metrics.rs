//! What the engine reports to the metrics registry, and the page on which
//! the registry is read.
//!
//! The library never touches a registry. Each step of the engine returns the
//! effects it calls for; the caller applies them, in order, to the counters,
//! the gauge and the histogram it keeps.

use vstd::prelude::*;
use crate::text::owned;

verus! {

/// One update of the metrics registry.
#[derive(Debug, Clone, PartialEq)]
pub enum MetricEffect {
    /// A request was accepted: the gauge of active requests goes up by one.
    RequestStarted,
    /// A request left the engine: the gauge of active requests goes down by
    /// one.
    RequestFinished,
    /// A response was served from the cache.
    CacheHit,
    /// The upstream answered: one more request of this method and status.
    UpstreamAnswered { method: String, status: u16 },
    /// A request took this long from acceptance to the upstream's answer.
    DurationObserved { millis: u64 },
}

/// A `MetricEffect` as contracts see it.
pub enum EffectModel {
    RequestStarted,
    RequestFinished,
    CacheHit,
    UpstreamAnswered { method: Seq<char>, status: u16 },
    DurationObserved { millis: u64 },
}

impl DeepView for MetricEffect {
    type V = EffectModel;

    open spec fn deep_view(&self) -> EffectModel {
        match self {
            MetricEffect::RequestStarted => EffectModel::RequestStarted,
            MetricEffect::RequestFinished => EffectModel::RequestFinished,
            MetricEffect::CacheHit => EffectModel::CacheHit,
            MetricEffect::UpstreamAnswered { method, status } => EffectModel::UpstreamAnswered {
                method: method@,
                status: *status,
            },
            MetricEffect::DurationObserved { millis } => EffectModel::DurationObserved {
                millis: *millis,
            },
        }
    }
}

/// What one effect does to the gauge of active requests.
pub open spec fn gauge_step(effect: EffectModel) -> int {
    match effect {
        EffectModel::RequestStarted => 1,
        EffectModel::RequestFinished => -1,
        _ => 0,
    }
}

/// What a run of effects does to the gauge of active requests.
pub open spec fn gauge_change(effects: Seq<EffectModel>) -> int
    decreases effects.len(),
{
    if effects.len() == 0 {
        0
    } else {
        gauge_change(effects.drop_last()) + gauge_step(effects.last())
    }
}

/// Whether one effect takes the gauge down, as a count.
pub open spec fn finish_step(effect: EffectModel) -> nat {
    if effect is RequestFinished {
        1
    } else {
        0
    }
}

/// How often a run of effects takes the gauge down.
pub open spec fn finishes(effects: Seq<EffectModel>) -> nat
    decreases effects.len(),
{
    if effects.len() == 0 {
        0
    } else {
        finishes(effects.drop_last()) + finish_step(effects.last())
    }
}

/// The gauge moves by the sum of what two runs of effects do to it.
pub proof fn lemma_gauge_change_add(first: Seq<EffectModel>, second: Seq<EffectModel>)
    ensures
        gauge_change(first + second) == gauge_change(first) + gauge_change(second),
        finishes(first + second) == finishes(first) + finishes(second),
    decreases second.len(),
{
    if second.len() == 0 {
        assert(first + second =~= first);
    } else {
        assert((first + second).drop_last() =~= first + second.drop_last());
        assert((first + second).last() == second.last());
        lemma_gauge_change_add(first, second.drop_last());
    }
}

/// The reply to a request for the metrics page.
#[derive(Debug, Clone, PartialEq)]
pub struct MetricsPage {
    /// The HTTP status of the reply.
    pub status: u16,
    /// The page itself, or the sentence that says why there is none.
    pub body: String,
}

/// The metrics page as contracts see it.
pub struct PageModel {
    pub status: u16,
    pub body: Seq<char>,
}

impl View for MetricsPage {
    type V = PageModel;

    open spec fn view(&self) -> PageModel {
        PageModel { status: self.status, body: self.body@ }
    }
}

/// The page for an exposition: the text itself with status 200, or status
/// 500 and a fixed sentence where the registry could not be encoded.
pub open spec fn page_for(exposition: Option<Seq<char>>) -> PageModel {
    match exposition {
        Some(text) => PageModel { status: 200, body: text },
        None => PageModel { status: 500, body: "Failed to encode metrics"@ },
    }
}

/// Builds the reply to a request for the metrics page from the text the
/// registry was encoded to, if it could be encoded.
pub fn metrics_page(exposition: Option<String>) -> (page: MetricsPage)
    ensures
        page@ == page_for(exposition.deep_view()),
{
    match exposition {
        Some(text) => MetricsPage { status: 200, body: text },
        None => MetricsPage { status: 500, body: owned("Failed to encode metrics") },
    }
}

} // verus!
