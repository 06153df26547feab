use std::collections::HashMap;

use api_tester::engine::{begin, step, EngineError, ProxyAction, ProxyEvent};
use api_tester::exchange::{ProxyRequest, ProxyResponse};
use api_tester::outbound::UpstreamBody;
use api_tester::settings::Settings;

struct Upstream {
    calls: u32,
}

fn exchange(
    cache: &mut HashMap<String, ProxyResponse>,
    upstream: &mut Upstream,
    request: ProxyRequest,
) -> Result<ProxyResponse, EngineError> {
    let settings = Settings::default();
    let mut taken = begin(request, &settings);
    loop {
        match taken.action {
            ProxyAction::Lookup { key } => {
                let event = match cache.get(&key) {
                    Some(found) => ProxyEvent::CacheHit { stored: found.clone(), elapsed_ms: 1 },
                    None => ProxyEvent::CacheMiss,
                };
                taken = step(taken.next, event);
            }
            ProxyAction::Forward { call } => {
                upstream.calls += 1;
                let body = format!("{{\"url\":\"{}\",\"call\":{}}}", call.url, upstream.calls);
                let event = ProxyEvent::Answered {
                    status: 200,
                    headers: vec![("content-type".to_string(), Some("application/json".to_string()))],
                    body: UpstreamBody::Bytes { bytes: body.into_bytes() },
                    elapsed_ms: 40,
                    timestamp: "2024-05-01T12:00:00+00:00".to_string(),
                };
                taken = step(taken.next, event);
            }
            ProxyAction::Respond { response, store_as } => {
                if let Some(key) = store_as {
                    cache.insert(key, response.clone());
                }
                return Ok(response);
            }
            ProxyAction::Fail { error } => return Err(error),
            ProxyAction::Ignore => panic!("the engine ignored what it asked for"),
        }
    }
}

fn request(method: &str, use_cache: bool) -> ProxyRequest {
    ProxyRequest {
        url: "http://echo/get".to_string(),
        method: method.to_string(),
        headers: None,
        body: None,
        use_cache,
    }
}

#[test]
fn the_same_cacheable_get_is_fresh_then_cached() {
    let mut cache = HashMap::new();
    let mut upstream = Upstream { calls: 0 };
    let first = exchange(&mut cache, &mut upstream, request("GET", true)).unwrap();
    let second = exchange(&mut cache, &mut upstream, request("GET", true)).unwrap();
    assert!(!first.cached);
    assert!(second.cached);
    assert_eq!(second.body, first.body);
    assert_eq!(second.status, first.status);
    assert_eq!(second.headers, first.headers);
    assert_eq!(first.duration_ms, 40);
    assert_eq!(second.duration_ms, 1);
    assert_eq!(upstream.calls, 1);
    assert_eq!(cache.len(), 1);
    assert!(!cache["GET:http://echo/get:null:null"].cached);
    let third = exchange(&mut cache, &mut upstream, request("GET", true)).unwrap();
    assert!(third.cached);
    assert_eq!(third.body, first.body);
    assert_eq!(upstream.calls, 1);
}

#[test]
fn a_post_never_hits_the_cache() {
    let mut cache = HashMap::new();
    let mut upstream = Upstream { calls: 0 };
    for round in 1..=3u32 {
        let response = exchange(&mut cache, &mut upstream, request("POST", true)).unwrap();
        assert!(!response.cached);
        assert_eq!(upstream.calls, round);
        assert!(cache.is_empty());
    }
}

#[test]
fn a_request_that_declines_the_cache_never_hits_it() {
    let mut cache = HashMap::new();
    let mut upstream = Upstream { calls: 0 };
    exchange(&mut cache, &mut upstream, request("GET", true)).unwrap();
    assert_eq!(cache.len(), 1);
    for round in 2..=4u32 {
        let response = exchange(&mut cache, &mut upstream, request("GET", false)).unwrap();
        assert!(!response.cached);
        assert_eq!(upstream.calls, round);
        assert_eq!(cache.len(), 1);
    }
}

#[test]
fn a_lower_case_get_is_forwarded_but_not_cached() {
    let mut cache = HashMap::new();
    let mut upstream = Upstream { calls: 0 };
    for round in 1..=2u32 {
        let response = exchange(&mut cache, &mut upstream, request("get", true)).unwrap();
        assert!(!response.cached);
        assert_eq!(upstream.calls, round);
        assert!(cache.is_empty());
    }
}

#[test]
fn different_requests_do_not_share_an_entry() {
    let mut cache = HashMap::new();
    let mut upstream = Upstream { calls: 0 };
    let mut other = request("GET", true);
    other.url = "http://echo/other".to_string();
    let first = exchange(&mut cache, &mut upstream, request("GET", true)).unwrap();
    let second = exchange(&mut cache, &mut upstream, other).unwrap();
    assert!(!first.cached);
    assert!(!second.cached);
    assert_ne!(first.body, second.body);
    assert_eq!(cache.len(), 2);
}

#[test]
fn an_unsupported_method_reaches_neither_cache_nor_upstream() {
    let mut cache = HashMap::new();
    let mut upstream = Upstream { calls: 0 };
    let failed = exchange(&mut cache, &mut upstream, request("BREW", true));
    assert_eq!(failed, Err(EngineError::UnsupportedMethod));
    assert_eq!(upstream.calls, 0);
    assert!(cache.is_empty());
}
