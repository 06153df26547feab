//! JSON documents as they travel through the proxy.
//!
//! A document is a `serde_json::Value`. The library carries documents from
//! request to response without looking inside; what it needs to know of one
//! it asks of `serde_json`, through the functions of this module. Each of
//! them is believed, not proved: it names the answer `serde_json` gives, which
//! depends on the arguments alone.
//!
//! Contracts see a document as its compact JSON text, and an error as the
//! sentence it displays.

use vstd::prelude::*;
use crate::headers::HeaderSeq;

verus! {

/// `serde_json::Value`, carried through without a look inside.
#[verifier::external_type_specification]
#[verifier::external_body]
pub struct ExJsonValue(serde_json::Value);

/// `serde_json::Error`, carried through without a look inside.
#[verifier::external_type_specification]
#[verifier::external_body]
pub struct ExJsonError(serde_json::Error);

/// What a document holds: the compact JSON text that
/// `serde_json::to_string` writes for it.
pub uninterp spec fn json_text(document: serde_json::Value) -> Seq<char>;

/// What an error holds: the sentence that a `serde_json::Error` displays.
pub uninterp spec fn json_error_text(error: serde_json::Error) -> Seq<char>;

/// The compact JSON text that `serde_json::to_string` writes for a list of
/// name and value pairs: an array of two-element arrays of strings.
pub uninterp spec fn header_list_text(headers: HeaderSeq) -> Seq<char>;

/// What `serde_json::from_slice` makes of a run of bytes: the document they
/// spell, or the reason they spell none.
pub uninterp spec fn json_parse(bytes: Seq<u8>) -> Result<Seq<char>, Seq<char>>;

/// The member that `serde_json::Value::get` finds under a name in a
/// document: present only where the document is an object with a member of
/// that name.
pub uninterp spec fn json_member(document: Seq<char>, name: Seq<char>) -> Option<Seq<char>>;

/// A document that may be absent, as contracts see it.
pub open spec fn document_view(document: Option<serde_json::Value>) -> Option<Seq<char>> {
    match document {
        Some(document) => Some(json_text(document)),
        None => None,
    }
}

/// The outcome of a parse, as contracts see it.
pub open spec fn parse_view(parsed: Result<serde_json::Value, serde_json::Error>) -> Result<
    Seq<char>,
    Seq<char>,
> {
    match parsed {
        Ok(document) => Ok(json_text(document)),
        Err(error) => Err(json_error_text(error)),
    }
}

/// Calls `serde_json::to_string` on a document. Writing a `Value` to memory
/// cannot fail, so the text is always the one the document determines.
#[verifier::external_body]
pub(crate) fn to_text(document: &serde_json::Value) -> (text: String)
    ensures
        text@ == json_text(*document),
{
    serde_json::to_string(document).unwrap_or_default()
}

/// Calls `serde_json::to_string` on a list of name and value pairs. Strings
/// in a sequence always serialize, so the text is the one the list determines.
#[verifier::external_body]
pub(crate) fn header_list_to_text(headers: &Vec<(String, String)>) -> (text: String)
    ensures
        text@ == header_list_text(headers.deep_view()),
{
    serde_json::to_string(headers).unwrap_or_default()
}

/// Calls `serde_json::from_slice` for a `Value`.
#[verifier::external_body]
pub(crate) fn parse(bytes: &[u8]) -> (parsed: Result<serde_json::Value, serde_json::Error>)
    ensures
        parse_view(parsed) == json_parse(bytes@),
{
    serde_json::from_slice::<serde_json::Value>(bytes)
}

/// Calls `serde_json::Value::get` with a member name and copies what it
/// finds.
#[verifier::external_body]
pub(crate) fn member(document: &serde_json::Value, name: &str) -> (found: Option<
    serde_json::Value,
>)
    ensures
        document_view(found) == json_member(json_text(*document), name@),
{
    document.get(name).cloned()
}

/// Formats a `serde_json::Error` with its `Display` impl.
#[verifier::external_body]
pub(crate) fn error_text(error: &serde_json::Error) -> (text: String)
    ensures
        text@ == json_error_text(*error),
{
    format!("{}", error)
}

} // verus!
