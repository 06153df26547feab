//! What a caller asks of the proxy and what it gets back.

use vstd::prelude::*;
use crate::headers::HeaderSeq;
use crate::json::document_view;

verus! {

/// One HTTP call that a caller wants made on its behalf.
#[derive(Debug, Clone, PartialEq)]
pub struct ProxyRequest {
    /// Where to send the call.
    pub url: String,
    /// The method, in whatever case the caller wrote it.
    pub method: String,
    /// Headers to attach, if any. The list stands for a mapping from names
    /// to values: of several headers with one name the last counts, and the
    /// order in which they are written changes neither the cache key nor
    /// which of them go out.
    pub headers: Option<Vec<(String, String)>>,
    /// A JSON document to send as the body, if any.
    pub body: Option<serde_json::Value>,
    /// Whether the response may come from, and go into, the cache.
    pub use_cache: bool,
}

/// A `ProxyRequest` as contracts see it; the body is a document's JSON
/// text.
pub struct RequestModel {
    pub url: Seq<char>,
    pub method: Seq<char>,
    pub headers: Option<HeaderSeq>,
    pub body: Option<Seq<char>>,
    pub use_cache: bool,
}

impl View for ProxyRequest {
    type V = RequestModel;

    open spec fn view(&self) -> RequestModel {
        RequestModel {
            url: self.url@,
            method: self.method@,
            headers: self.headers.deep_view(),
            body: document_view(self.body),
            use_cache: self.use_cache,
        }
    }
}

/// What the upstream answered, in the shape every caller receives.
#[derive(Debug, Clone, PartialEq)]
pub struct ProxyResponse {
    /// The upstream's status code.
    pub status: u16,
    /// The upstream's headers, one value per name.
    pub headers: Vec<(String, String)>,
    /// The decoded body; `None` stands for JSON `null`.
    pub body: Option<serde_json::Value>,
    /// Whether this copy was served from the cache.
    pub cached: bool,
    /// When the response was obtained, as an RFC 3339 instant.
    pub timestamp: String,
    /// Milliseconds from accepting the request to producing this result.
    pub duration_ms: u64,
}

/// A `ProxyResponse` as contracts see it; the body is a document's JSON
/// text.
pub struct ResponseModel {
    pub status: u16,
    pub headers: HeaderSeq,
    pub body: Option<Seq<char>>,
    pub cached: bool,
    pub timestamp: Seq<char>,
    pub duration_ms: u64,
}

impl View for ProxyResponse {
    type V = ResponseModel;

    open spec fn view(&self) -> ResponseModel {
        ResponseModel {
            status: self.status,
            headers: self.headers.deep_view(),
            body: document_view(self.body),
            cached: self.cached,
            timestamp: self.timestamp@,
            duration_ms: self.duration_ms,
        }
    }
}

impl RequestModel {
    /// Whether the cache may be consulted and filled for this request: the
    /// caller allows it and the method is exactly `GET`.
    pub open spec fn cacheable(self) -> bool {
        self.use_cache && self.method == "GET"@
    }
}

} // verus!
