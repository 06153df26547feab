use api_tester::metrics::{metrics_page, MetricsPage};
use api_tester::settings::Settings;
use api_tester::text::{labelled, owned, same_text};

#[test]
fn the_standard_settings() {
    let settings = Settings::default();
    assert_eq!(
        settings,
        Settings {
            cache_capacity: 1000,
            cache_ttl_secs: 300,
            request_timeout_secs: 30,
            send_pause_ms: 100,
            default_listen_secs: 5,
        }
    );
}

#[test]
fn the_metrics_page_is_the_exposition() {
    let page = metrics_page(Some("# HELP cache_hits_total Total number of cache hits\n".to_string()));
    assert_eq!(
        page,
        MetricsPage {
            status: 200,
            body: "# HELP cache_hits_total Total number of cache hits\n".to_string(),
        }
    );
    assert_eq!(metrics_page(Some(String::new())), MetricsPage { status: 200, body: String::new() });
}

#[test]
fn a_registry_that_cannot_be_encoded_is_an_internal_error() {
    assert_eq!(
        metrics_page(None),
        MetricsPage { status: 500, body: "Failed to encode metrics".to_string() }
    );
}

#[test]
fn text_helpers() {
    assert!(same_text("GET", "GET"));
    assert!(!same_text("GET", "get"));
    assert!(!same_text("GET", "GET "));
    assert!(same_text("", ""));
    assert_eq!(owned("abc"), "abc");
    assert_eq!(labelled("Request failed: ", "boom"), "Request failed: boom");
    assert_eq!(labelled("", ""), "");
}
