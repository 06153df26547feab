//! Cache fingerprints: the key under which a response is stored and found.
//!
//! A fingerprint is the method, the URL, the serialized headers and the
//! serialized body, joined by colons. The headers are serialized in their
//! canonical form, so the order in which a caller wrote them does not
//! matter. The fingerprint depends on nothing else: not on the clock, not
//! on what the cache holds, not on `use_cache`.

use vstd::prelude::*;
use crate::canonical::{
    canonical,
    canonical_headers,
    lemma_canonical_ignores_order,
    same_mapping,
};
use crate::exchange::{ProxyRequest, RequestModel};
use crate::headers::HeaderSeq;
use crate::json::{document_view, header_list_text, header_list_to_text, to_text};
use crate::text::owned;
use vstd::string::StringExecFns;

verus! {

/// The fingerprint of four texts.
pub open spec fn fingerprint(
    method: Seq<char>,
    url: Seq<char>,
    headers: Seq<char>,
    body: Seq<char>,
) -> Seq<char> {
    method + seq![':'] + url + seq![':'] + headers + seq![':'] + body
}

/// How headers enter a fingerprint: `null` when there are none, else the
/// JSON text of the list in its canonical form.
pub open spec fn serialized_headers(headers: Option<HeaderSeq>) -> Seq<char> {
    match headers {
        None => "null"@,
        Some(list) => header_list_text(canonical(list)),
    }
}

/// How a body enters a fingerprint: `null` when there is none, else the
/// JSON text of the document.
pub open spec fn serialized_body(body: Option<Seq<char>>) -> Seq<char> {
    match body {
        None => "null"@,
        Some(document) => document,
    }
}

/// The fingerprint of a request.
pub open spec fn cache_key(request: RequestModel) -> Seq<char> {
    fingerprint(
        request.method,
        request.url,
        serialized_headers(request.headers),
        serialized_body(request.body),
    )
}

/// Joins four texts into a fingerprint.
pub fn fingerprint_of(method: &str, url: &str, headers: &str, body: &str) -> (key: String)
    ensures
        key@ == fingerprint(method@, url@, headers@, body@),
{
    proof {
        reveal_strlit(":");
        assert(":"@ =~= seq![':']);
    }
    let mut key = String::from_str(method);
    key.append(":");
    key.append(url);
    key.append(":");
    key.append(headers);
    key.append(":");
    key.append(body);
    key
}

/// The text that stands for a request's headers in its fingerprint.
pub fn headers_part(headers: &Option<Vec<(String, String)>>) -> (text: String)
    ensures
        text@ == serialized_headers(headers.deep_view()),
{
    match headers {
        None => owned("null"),
        Some(list) => {
            let ordered = canonical_headers(list);
            header_list_to_text(&ordered)
        },
    }
}

/// The text that stands for a request's body in its fingerprint.
pub fn body_part(body: &Option<serde_json::Value>) -> (text: String)
    ensures
        text@ == serialized_body(document_view(*body)),
{
    match body {
        None => owned("null"),
        Some(document) => to_text(document),
    }
}

/// Derives the cache key of a request from its method, URL, headers and
/// body. It never fails and has no effect.
pub fn generate_cache_key(request: &ProxyRequest) -> (key: String)
    ensures
        key@ == cache_key(request@),
{
    let headers = headers_part(&request.headers);
    let body = body_part(&request.body);
    fingerprint_of(request.method.as_str(), request.url.as_str(), headers.as_str(), body.as_str())
}

/// Two texts that differ still differ between equal surroundings.
pub proof fn lemma_middle_differs(
    before: Seq<char>,
    left: Seq<char>,
    right: Seq<char>,
    after: Seq<char>,
)
    requires
        left != right,
    ensures
        before + left + after != before + right + after,
{
    let a = before + left + after;
    let b = before + right + after;
    if a == b {
        assert(a.len() == b.len());
        assert(left.len() == right.len());
        assert forall|i: int| 0 <= i < left.len() implies left[i] == right[i] by {
            assert(a[before.len() + i] == left[i]);
            assert(b[before.len() + i] == right[i]);
        }
        assert(left =~= right);
    }
}

/// Determinism: requests that agree in method, URL, headers and body have
/// the same fingerprint, whatever else they differ in.
pub proof fn lemma_fingerprint_deterministic(first: RequestModel, second: RequestModel)
    requires
        first.method == second.method,
        first.url == second.url,
        first.headers == second.headers,
        first.body == second.body,
    ensures
        cache_key(first) == cache_key(second),
{
}

/// The order of headers is immaterial: two requests that agree in method,
/// URL and body, and whose headers stand for the same mapping from names to
/// values, have the same fingerprint, in whatever order the headers were
/// written.
pub proof fn lemma_header_order_is_immaterial(
    first: RequestModel,
    second: RequestModel,
    first_headers: HeaderSeq,
    second_headers: HeaderSeq,
)
    requires
        first.method == second.method,
        first.url == second.url,
        first.body == second.body,
        first.headers == Some(first_headers),
        second.headers == Some(second_headers),
        same_mapping(first_headers, second_headers),
    ensures
        cache_key(first) == cache_key(second),
{
    lemma_canonical_ignores_order(first_headers, second_headers);
}

/// Sensitivity: two fingerprints that differ in exactly one of their four
/// parts are different.
pub proof fn lemma_fingerprint_sensitive(
    method: (Seq<char>, Seq<char>),
    url: (Seq<char>, Seq<char>),
    headers: (Seq<char>, Seq<char>),
    body: (Seq<char>, Seq<char>),
)
    requires
        (if method.0 != method.1 { 1int } else { 0 }) + (if url.0 != url.1 { 1int } else { 0 })
            + (if headers.0 != headers.1 { 1int } else { 0 }) + (if body.0 != body.1 { 1int } else { 0 })
            == 1,
    ensures
        fingerprint(method.0, url.0, headers.0, body.0) != fingerprint(
            method.1,
            url.1,
            headers.1,
            body.1,
        ),
{
    let colon = seq![':'];
    let first = fingerprint(method.0, url.0, headers.0, body.0);
    let second = fingerprint(method.1, url.1, headers.1, body.1);
    if method.0 != method.1 {
        let after = colon + url.0 + colon + headers.0 + colon + body.0;
        lemma_middle_differs(Seq::empty(), method.0, method.1, after);
        assert(first =~= Seq::empty() + method.0 + after);
        assert(second =~= Seq::empty() + method.1 + after);
    } else if url.0 != url.1 {
        let before = method.0 + colon;
        let after = colon + headers.0 + colon + body.0;
        lemma_middle_differs(before, url.0, url.1, after);
        assert(first =~= before + url.0 + after);
        assert(second =~= before + url.1 + after);
    } else if headers.0 != headers.1 {
        let before = method.0 + colon + url.0 + colon;
        let after = colon + body.0;
        lemma_middle_differs(before, headers.0, headers.1, after);
        assert(first =~= before + headers.0 + after);
        assert(second =~= before + headers.1 + after);
    } else {
        let before = method.0 + colon + url.0 + colon + headers.0 + colon;
        lemma_middle_differs(before, body.0, body.1, Seq::empty());
        assert(first =~= before + body.0 + Seq::empty());
        assert(second =~= before + body.1 + Seq::empty());
    }
}

/// Sensitivity, for requests: two requests that differ in exactly one of
/// method, URL, serialized headers and serialized body have different
/// fingerprints.
pub proof fn lemma_cache_key_sensitive(first: RequestModel, second: RequestModel)
    requires
        (if first.method != second.method { 1int } else { 0 }) + (if first.url != second.url {
            1int
        } else {
            0
        }) + (if serialized_headers(first.headers) != serialized_headers(second.headers) {
            1int
        } else {
            0
        }) + (if serialized_body(first.body) != serialized_body(second.body) { 1int } else { 0 })
            == 1,
    ensures
        cache_key(first) != cache_key(second),
{
    lemma_fingerprint_sensitive(
        (first.method, second.method),
        (first.url, second.url),
        (serialized_headers(first.headers), serialized_headers(second.headers)),
        (serialized_body(first.body), serialized_body(second.body)),
    );
}

/// A text without a colon.
pub open spec fn colon_free(text: Seq<char>) -> bool {
    forall|i: int| 0 <= i < text.len() ==> #[trigger] text[i] != ':'
}

/// Methods do not collide: fingerprints whose methods hold no colon, as the
/// name of no supported method does, are equal only where the methods are,
/// whatever the other parts hold.
pub proof fn lemma_fingerprint_tells_methods_apart(
    method: (Seq<char>, Seq<char>),
    url: (Seq<char>, Seq<char>),
    headers: (Seq<char>, Seq<char>),
    body: (Seq<char>, Seq<char>),
)
    requires
        colon_free(method.0),
        colon_free(method.1),
        method.0 != method.1,
    ensures
        fingerprint(method.0, url.0, headers.0, body.0) != fingerprint(
            method.1,
            url.1,
            headers.1,
            body.1,
        ),
{
    let first = fingerprint(method.0, url.0, headers.0, body.0);
    let second = fingerprint(method.1, url.1, headers.1, body.1);
    if first == second {
        assert(first[method.0.len() as int] == ':');
        assert(second[method.1.len() as int] == ':');
        if method.0.len() < method.1.len() {
            assert(second[method.0.len() as int] == method.1[method.0.len() as int]);
        } else if method.1.len() < method.0.len() {
            assert(first[method.1.len() as int] == method.0[method.1.len() as int]);
        } else {
            assert forall|i: int| 0 <= i < method.0.len() implies method.0[i] == method.1[i] by {
                assert(first[i] == method.0[i]);
                assert(second[i] == method.1[i]);
            }
            assert(method.0 =~= method.1);
        }
    }
}

} // verus!
