use std::time::{Duration, Instant};

use api_tester::engine::{begin, step, ProxyAction, ProxyEvent};
use api_tester::exchange::{ProxyRequest, ProxyResponse};
use api_tester::outbound::UpstreamBody;
use api_tester::settings::Settings;
use moka::sync::Cache;

fn timed_exchange(cache: &Cache<String, ProxyResponse>, calls: &mut u32) -> ProxyResponse {
    let settings = Settings::default();
    let request = ProxyRequest {
        url: "http://echo/get".to_string(),
        method: "GET".to_string(),
        headers: None,
        body: None,
        use_cache: true,
    };
    let mut taken = begin(request, &settings);
    loop {
        match taken.action {
            ProxyAction::Lookup { key } => {
                let event = match cache.get(&key) {
                    Some(stored) => ProxyEvent::CacheHit { stored, elapsed_ms: 0 },
                    None => ProxyEvent::CacheMiss,
                };
                taken = step(taken.next, event);
            }
            ProxyAction::Forward { .. } => {
                *calls += 1;
                let event = ProxyEvent::Answered {
                    status: 200,
                    headers: Vec::new(),
                    body: UpstreamBody::Bytes { bytes: calls.to_string().into_bytes() },
                    elapsed_ms: 10,
                    timestamp: "2024-05-01T12:00:00+00:00".to_string(),
                };
                taken = step(taken.next, event);
            }
            ProxyAction::Respond { response, store_as } => {
                if let Some(key) = store_as {
                    cache.insert(key, response.clone());
                }
                return response;
            }
            other => panic!("unexpected action {:?}", other),
        }
    }
}

fn wait(duration: Duration) {
    let start = Instant::now();
    while start.elapsed() < duration {
        std::hint::spin_loop();
    }
}

#[test]
fn a_cached_entry_is_gone_once_its_time_to_live_is_over() {
    let cache: Cache<String, ProxyResponse> =
        Cache::builder().max_capacity(10).time_to_live(Duration::from_millis(300)).build();
    let mut calls = 0;

    let first = timed_exchange(&cache, &mut calls);
    assert!(!first.cached);
    let second = timed_exchange(&cache, &mut calls);
    assert!(second.cached);
    assert_eq!(second.body, first.body);
    assert_eq!(calls, 1);

    wait(Duration::from_millis(400));
    assert!(cache.get(&"GET:http://echo/get:null:null".to_string()).is_none());
    let third = timed_exchange(&cache, &mut calls);
    assert!(!third.cached);
    assert_eq!(calls, 2);
    assert_eq!(third.body, Some(serde_json::Value::from(2)));
}
