//! The limits the proxy runs with.

use vstd::prelude::*;

verus! {

/// Configuration of one proxy instance.
#[derive(Debug, Clone, Copy, PartialEq, Eq)]
pub struct Settings {
    /// Most entries the response cache may hold.
    pub cache_capacity: u64,
    /// Seconds after which a cached response is no longer served.
    pub cache_ttl_secs: u64,
    /// Seconds an upstream call may take before it is abandoned.
    pub request_timeout_secs: u64,
    /// Milliseconds the relay waits after each message it has sent.
    pub send_pause_ms: u64,
    /// Seconds the relay listens when the caller names no duration.
    pub default_listen_secs: u64,
}

impl Settings {
    /// The settings a proxy starts with when nothing else is configured.
    pub open spec fn standard() -> Settings {
        Settings {
            cache_capacity: 1000,
            cache_ttl_secs: 300,
            request_timeout_secs: 30,
            send_pause_ms: 100,
            default_listen_secs: 5,
        }
    }
}

impl Default for Settings {
    fn default() -> (settings: Settings)
        ensures
            settings == Settings::standard(),
    {
        Settings {
            cache_capacity: 1000,
            cache_ttl_secs: 300,
            request_timeout_secs: 30,
            send_pause_ms: 100,
            default_listen_secs: 5,
        }
    }
}

} // verus!
