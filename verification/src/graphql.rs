//! The GraphQL adapter: a query and its variables wrapped into one `POST`,
//! and the upstream's answer unwrapped into data and errors.
//!
//! The adapter never touches the cache. Its call is bounded by the same
//! timeout as every other call. A response that is not JSON is an error
//! here, not a `null` body: a GraphQL answer that cannot be read is no
//! answer.

use vstd::prelude::*;
use crate::engine::outbound_headers;
use crate::headers::{
    encodable_headers,
    has_header,
    lemma_overriding_is_unalike,
    lemma_overriding_names_default,
    lemma_unified_is_unalike,
    names_header,
    overriding,
    sendable,
    unalike_names,
    unify_headers,
    HeaderSeq,
};
use crate::json::{document_view, error_text, json_member, json_parse, member, parse, parse_view};
use crate::method::Method;
use crate::outbound::{BodyModel, CallModel, OutboundCall, Payload, PayloadModel, UpstreamBody};
use crate::settings::Settings;
use crate::text::{labelled, owned};

verus! {

/// One GraphQL operation that a caller wants run on its behalf.
#[derive(Debug, Clone, PartialEq)]
pub struct GraphQLRequest {
    /// The endpoint to send the operation to.
    pub url: String,
    /// The operation.
    pub query: String,
    /// The operation's variables, if any.
    pub variables: Option<serde_json::Value>,
    /// Headers to attach, if any. The list stands for a mapping from names
    /// to values: of several headers with one name the last counts.
    pub headers: Option<Vec<(String, String)>>,
}

/// A `GraphQLRequest` as contracts see it; the variables are a document's
/// JSON text.
pub struct GraphQLRequestModel {
    pub url: Seq<char>,
    pub query: Seq<char>,
    pub variables: Option<Seq<char>>,
    pub headers: Option<HeaderSeq>,
}

impl View for GraphQLRequest {
    type V = GraphQLRequestModel;

    open spec fn view(&self) -> GraphQLRequestModel {
        GraphQLRequestModel {
            url: self.url@,
            query: self.query@,
            variables: document_view(self.variables),
            headers: self.headers.deep_view(),
        }
    }
}

/// What the endpoint answered.
#[derive(Debug, Clone, PartialEq)]
pub struct GraphQLResponse {
    /// The answer's `data` member, as it came; absent where there is none.
    pub data: Option<serde_json::Value>,
    /// The answer's `errors` member, as it came; absent where there is none.
    pub errors: Option<serde_json::Value>,
    /// Milliseconds from accepting the request to reading the answer.
    pub duration_ms: u64,
}

/// A `GraphQLResponse` as contracts see it; data and errors are documents'
/// JSON texts.
pub struct GraphQLResponseModel {
    pub data: Option<Seq<char>>,
    pub errors: Option<Seq<char>>,
    pub duration_ms: u64,
}

impl View for GraphQLResponse {
    type V = GraphQLResponseModel;

    open spec fn view(&self) -> GraphQLResponseModel {
        GraphQLResponseModel {
            data: document_view(self.data),
            errors: document_view(self.errors),
            duration_ms: self.duration_ms,
        }
    }
}

/// Why the adapter could not produce a response.
#[derive(Debug, Clone, PartialEq)]
pub enum GraphQLError {
    /// The endpoint did not answer in time.
    Timeout,
    /// The endpoint could not be reached; the reason is the transport's.
    RequestFailed { reason: String },
    /// The answer was not JSON, or could not be read to its end.
    MalformedResponse { reason: String },
}

/// A `GraphQLError` as contracts see it.
pub enum GraphQLErrorModel {
    Timeout,
    RequestFailed { reason: Seq<char> },
    MalformedResponse { reason: Seq<char> },
}

impl View for GraphQLError {
    type V = GraphQLErrorModel;

    open spec fn view(&self) -> GraphQLErrorModel {
        match self {
            GraphQLError::Timeout => GraphQLErrorModel::Timeout,
            GraphQLError::RequestFailed { reason } => GraphQLErrorModel::RequestFailed {
                reason: reason@,
            },
            GraphQLError::MalformedResponse { reason } => GraphQLErrorModel::MalformedResponse {
                reason: reason@,
            },
        }
    }
}

impl GraphQLErrorModel {
    /// The HTTP status the caller sees: 504 for a timeout, 500 for every
    /// other failure.
    pub open spec fn status_code(self) -> u16 {
        match self {
            GraphQLErrorModel::Timeout => 504,
            _ => 500,
        }
    }

    /// The sentence the caller sees.
    pub open spec fn message(self) -> Seq<char> {
        match self {
            GraphQLErrorModel::Timeout => "Request timeout"@,
            GraphQLErrorModel::RequestFailed { reason } => "GraphQL request failed: "@ + reason,
            GraphQLErrorModel::MalformedResponse { reason } => "Failed to parse GraphQL response: "@
                + reason,
        }
    }
}

impl GraphQLError {
    /// The HTTP status to answer the caller with.
    pub fn status_code(&self) -> (code: u16)
        ensures
            code == self@.status_code(),
    {
        match self {
            GraphQLError::Timeout => 504,
            _ => 500,
        }
    }

    /// The sentence to answer the caller with.
    pub fn message(&self) -> (text: String)
        ensures
            text@ == self@.message(),
    {
        match self {
            GraphQLError::Timeout => owned("Request timeout"),
            GraphQLError::RequestFailed { reason } => labelled(
                "GraphQL request failed: ",
                reason.as_str(),
            ),
            GraphQLError::MalformedResponse { reason } => labelled(
                "Failed to parse GraphQL response: ",
                reason.as_str(),
            ),
        }
    }
}

/// How a call to the endpoint ended.
#[derive(Debug, Clone, PartialEq)]
pub enum GraphQLEvent {
    /// The call was abandoned because its time ran out.
    TimedOut,
    /// The call failed before any answer came.
    Unreachable { reason: String },
    /// The endpoint answered; the answer was complete `elapsed_ms` after
    /// the request was accepted.
    Answered { body: UpstreamBody, elapsed_ms: u64 },
}

/// A `GraphQLEvent` as contracts see it.
pub enum GraphQLEventModel {
    TimedOut,
    Unreachable { reason: Seq<char> },
    Answered { body: BodyModel, elapsed_ms: u64 },
}

impl View for GraphQLEvent {
    type V = GraphQLEventModel;

    open spec fn view(&self) -> GraphQLEventModel {
        match self {
            GraphQLEvent::TimedOut => GraphQLEventModel::TimedOut,
            GraphQLEvent::Unreachable { reason } => GraphQLEventModel::Unreachable {
                reason: reason@,
            },
            GraphQLEvent::Answered { body, elapsed_ms } => GraphQLEventModel::Answered {
                body: body@,
                elapsed_ms: *elapsed_ms,
            },
        }
    }
}

/// The outcome of an operation as contracts see it.
pub type GraphQLOutcomeModel = Result<GraphQLResponseModel, GraphQLErrorModel>;

/// An outcome as contracts see it.
pub open spec fn outcome_view(outcome: Result<GraphQLResponse, GraphQLError>) -> GraphQLOutcomeModel {
    match outcome {
        Ok(response) => Ok(response@),
        Err(error) => Err(error@),
    }
}

/// The header every operation goes out with unless the caller replaces it.
pub open spec fn default_header() -> (Seq<char>, Seq<char>) {
    ("content-type"@, "application/json"@)
}

/// The call that carries an operation: always a `POST` of the query and
/// its variables, bounded by the configured timeout. Its headers are those
/// of the caller's that can be encoded, one per name, with the default
/// content type before them unless one of them is a content type itself.
pub open spec fn call_model(request: GraphQLRequestModel, settings: Settings) -> CallModel {
    CallModel {
        method: Method::Post,
        url: request.url,
        headers: overriding(default_header(), outbound_headers(request.headers)),
        body: Some(PayloadModel::GraphQl { query: request.query, variables: request.variables }),
        timeout_secs: Some(settings.request_timeout_secs),
    }
}

/// The response made from a decoded answer: its `data` and `errors`
/// members as they stand.
pub open spec fn response_model(document: Seq<char>, elapsed_ms: u64) -> GraphQLResponseModel {
    GraphQLResponseModel {
        data: json_member(document, "data"@),
        errors: json_member(document, "errors"@),
        duration_ms: elapsed_ms,
    }
}

/// The outcome of an operation, given what the answer parsed to.
pub open spec fn conclude_model(
    parsed: Result<Seq<char>, Seq<char>>,
    elapsed_ms: u64,
) -> GraphQLOutcomeModel {
    match parsed {
        Ok(document) => Ok(response_model(document, elapsed_ms)),
        Err(reason) => Err(GraphQLErrorModel::MalformedResponse { reason }),
    }
}

/// The outcome of an operation.
pub open spec fn outcome_model(event: GraphQLEventModel) -> GraphQLOutcomeModel {
    match event {
        GraphQLEventModel::TimedOut => Err(GraphQLErrorModel::Timeout),
        GraphQLEventModel::Unreachable { reason } => Err(
            GraphQLErrorModel::RequestFailed { reason },
        ),
        GraphQLEventModel::Answered { body: BodyModel::Unreadable { reason }, .. } => Err(
            GraphQLErrorModel::MalformedResponse { reason },
        ),
        GraphQLEventModel::Answered { body: BodyModel::Bytes { bytes }, elapsed_ms } => {
            conclude_model(json_parse(bytes), elapsed_ms)
        },
    }
}

/// Every call carries a content type, and no header name twice, case
/// aside: where the caller names a content type that can be encoded, it is
/// the caller's and the default is left out.
pub proof fn lemma_call_has_one_content_type(request: GraphQLRequestModel, settings: Settings)
    ensures
        names_header(call_model(request, settings).headers, default_header().0),
        unalike_names(call_model(request, settings).headers),
        names_header(outbound_headers(request.headers), default_header().0) ==> call_model(
            request,
            settings,
        ).headers == outbound_headers(request.headers),
        call_model(request, settings).timeout_secs == Some(settings.request_timeout_secs),
{
    let kept = outbound_headers(request.headers);
    match request.headers {
        Some(list) => {
            lemma_unified_is_unalike(sendable(list));
        },
        None => {},
    }
    lemma_overriding_names_default(default_header(), kept);
    lemma_overriding_is_unalike(default_header(), kept);
}

/// Wraps an operation into the call that carries it.
pub fn graphql_call(request: GraphQLRequest, settings: &Settings) -> (call: OutboundCall)
    ensures
        call@ == call_model(request@, *settings),
{
    let mut kept = match &request.headers {
        None => Vec::new(),
        Some(list) => {
            let sendable = encodable_headers(list);
            unify_headers(&sendable)
        },
    };
    assert(kept.deep_view() =~= outbound_headers(request@.headers));
    let headers = if has_header(&kept, "content-type") {
        kept
    } else {
        let mut headers: Vec<(String, String)> = Vec::new();
        headers.push((owned("content-type"), owned("application/json")));
        let ghost first = headers.deep_view();
        let ghost rest = kept.deep_view();
        assert(first =~= seq![default_header()]);
        headers.append(&mut kept);
        assert(headers.deep_view() =~= first + rest);
        headers
    };
    OutboundCall {
        method: Method::Post,
        url: request.url,
        headers,
        body: Some(Payload::GraphQl { query: request.query, variables: request.variables }),
        timeout_secs: Some(settings.request_timeout_secs),
    }
}

/// Unwraps a parsed answer into data and errors, or reports why the
/// answer did not parse.
pub fn conclude(parsed: Result<serde_json::Value, serde_json::Error>, elapsed_ms: u64) -> (outcome:
    Result<GraphQLResponse, GraphQLError>)
    ensures
        outcome_view(outcome) == conclude_model(parse_view(parsed), elapsed_ms),
{
    match parsed {
        Ok(document) => Ok(
            GraphQLResponse {
                data: member(&document, "data"),
                errors: member(&document, "errors"),
                duration_ms: elapsed_ms,
            },
        ),
        Err(error) => Err(GraphQLError::MalformedResponse { reason: error_text(&error) }),
    }
}

/// Turns the end of a call into the outcome of the operation.
pub fn graphql_outcome(event: GraphQLEvent) -> (outcome: Result<GraphQLResponse, GraphQLError>)
    ensures
        outcome_view(outcome) == outcome_model(event@),
{
    match event {
        GraphQLEvent::TimedOut => Err(GraphQLError::Timeout),
        GraphQLEvent::Unreachable { reason } => Err(GraphQLError::RequestFailed { reason }),
        GraphQLEvent::Answered { body, elapsed_ms } => match body {
            UpstreamBody::Unreadable { reason } => Err(GraphQLError::MalformedResponse { reason }),
            UpstreamBody::Bytes { bytes } => conclude(parse(bytes.as_slice()), elapsed_ms),
        },
    }
}

} // verus!
