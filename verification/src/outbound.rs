//! Calls to the upstream: what the library asks a caller to send, and what
//! the caller reports of the body that came back.

use vstd::prelude::*;
use crate::headers::HeaderSeq;
use crate::json::{document_view, json_text};
use crate::method::Method;

verus! {

/// The body of an outbound call.
#[derive(Debug, PartialEq)]
pub enum Payload {
    /// A JSON document, sent as it is.
    Json { document: serde_json::Value },
    /// A GraphQL operation, sent as the JSON object
    /// `{"query": .., "variables": ..}`, with `null` for absent variables.
    GraphQl { query: String, variables: Option<serde_json::Value> },
}

/// A `Payload` as contracts see it; documents are their JSON texts.
pub enum PayloadModel {
    Json { document: Seq<char> },
    GraphQl { query: Seq<char>, variables: Option<Seq<char>> },
}

impl DeepView for Payload {
    type V = PayloadModel;

    open spec fn deep_view(&self) -> PayloadModel {
        match self {
            Payload::Json { document } => PayloadModel::Json { document: json_text(*document) },
            Payload::GraphQl { query, variables } => PayloadModel::GraphQl {
                query: query@,
                variables: document_view(*variables),
            },
        }
    }
}

/// One HTTP call for the caller to make.
#[derive(Debug, PartialEq)]
pub struct OutboundCall {
    /// The method to use.
    pub method: Method,
    /// Where to send the call.
    pub url: String,
    /// The headers to attach. Every one of them can be encoded, and no two
    /// of them have the same name, case aside.
    pub headers: Vec<(String, String)>,
    /// The body to send as JSON, if any.
    pub body: Option<Payload>,
    /// Seconds after which the call is to be abandoned, if it is bounded.
    pub timeout_secs: Option<u64>,
}

/// An `OutboundCall` as contracts see it.
pub struct CallModel {
    pub method: Method,
    pub url: Seq<char>,
    pub headers: HeaderSeq,
    pub body: Option<PayloadModel>,
    pub timeout_secs: Option<u64>,
}

impl View for OutboundCall {
    type V = CallModel;

    open spec fn view(&self) -> CallModel {
        CallModel {
            method: self.method,
            url: self.url@,
            headers: self.headers.deep_view(),
            body: self.body.deep_view(),
            timeout_secs: self.timeout_secs,
        }
    }
}

/// What the caller could read of an upstream's body.
#[derive(Debug, Clone, PartialEq)]
pub enum UpstreamBody {
    /// The whole body.
    Bytes { bytes: Vec<u8> },
    /// The body broke off; the reason is the transport's.
    Unreadable { reason: String },
}

/// An `UpstreamBody` as contracts see it.
pub enum BodyModel {
    Bytes { bytes: Seq<u8> },
    Unreadable { reason: Seq<char> },
}

impl View for UpstreamBody {
    type V = BodyModel;

    open spec fn view(&self) -> BodyModel {
        match self {
            UpstreamBody::Bytes { bytes } => BodyModel::Bytes { bytes: bytes@ },
            UpstreamBody::Unreadable { reason } => BodyModel::Unreadable { reason: reason@ },
        }
    }
}

} // verus!
