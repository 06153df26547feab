//! The HTTP methods the proxy forwards.

use vstd::prelude::*;
use crate::text::same_text;

verus! {

/// A method the proxy is willing to forward.
#[derive(Debug, Clone, Copy, PartialEq, Eq, Structural)]
pub enum Method {
    Get,
    Post,
    Put,
    Delete,
    Patch,
}

/// What `str::to_uppercase` returns for a text.
pub uninterp spec fn uppercase(text: Seq<char>) -> Seq<char>;

/// Calls `str::to_uppercase`, which maps each character to its Unicode
/// upper case and depends on nothing but the text.
#[verifier::external_body]
fn to_uppercase(text: &str) -> (upper: String)
    ensures
        upper@ == uppercase(text@),
{
    text.to_uppercase()
}

impl Method {
    /// The method's name on the wire.
    pub open spec fn name(self) -> Seq<char> {
        match self {
            Method::Get => "GET"@,
            Method::Post => "POST"@,
            Method::Put => "PUT"@,
            Method::Delete => "DELETE"@,
            Method::Patch => "PATCH"@,
        }
    }

    /// The method that an upper-case name stands for, if it is supported.
    pub open spec fn named(upper: Seq<char>) -> Option<Method> {
        if upper == "GET"@ {
            Some(Method::Get)
        } else if upper == "POST"@ {
            Some(Method::Post)
        } else if upper == "PUT"@ {
            Some(Method::Put)
        } else if upper == "DELETE"@ {
            Some(Method::Delete)
        } else if upper == "PATCH"@ {
            Some(Method::Patch)
        } else {
            None
        }
    }

    /// The method a caller asked for, whatever the case it was written in:
    /// a name already in upper case is read as it stands, any other is put
    /// in upper case first.
    pub open spec fn requested(method: Seq<char>) -> Option<Method> {
        match Method::named(method) {
            Some(method) => Some(method),
            None => Method::named(uppercase(method)),
        }
    }

    /// Reads a method from its upper-case name.
    pub fn from_name(upper: &str) -> (method: Option<Method>)
        ensures
            method == Method::named(upper@),
    {
        if same_text(upper, "GET") {
            Some(Method::Get)
        } else if same_text(upper, "POST") {
            Some(Method::Post)
        } else if same_text(upper, "PUT") {
            Some(Method::Put)
        } else if same_text(upper, "DELETE") {
            Some(Method::Delete)
        } else if same_text(upper, "PATCH") {
            Some(Method::Patch)
        } else {
            None
        }
    }

    /// Reads the method of a request. Case does not matter: `get` and `Get`
    /// are as good as `GET`.
    pub fn parse(method: &str) -> (parsed: Option<Method>)
        ensures
            parsed == Method::requested(method@),
    {
        match Method::from_name(method) {
            Some(method) => Some(method),
            None => {
                let upper = to_uppercase(method);
                Method::from_name(upper.as_str())
            },
        }
    }

    /// The method's name on the wire.
    pub fn as_str(&self) -> (name: &'static str)
        ensures
            name@ == self.name(),
    {
        match self {
            Method::Get => "GET",
            Method::Post => "POST",
            Method::Put => "PUT",
            Method::Delete => "DELETE",
            Method::Patch => "PATCH",
        }
    }
}

/// Every supported method is read back from its own name.
pub proof fn lemma_name_round_trip(method: Method)
    ensures
        Method::named(method.name()) == Some(method),
{
    reveal_strlit("GET");
    reveal_strlit("POST");
    reveal_strlit("PUT");
    reveal_strlit("DELETE");
    reveal_strlit("PATCH");
    assert("GET"@.len() == 3 && "PUT"@.len() == 3);
    assert("POST"@.len() == 4 && "PATCH"@.len() == 5 && "DELETE"@.len() == 6);
    assert("GET"@[0] == 'G' && "PUT"@[0] == 'P');
}

/// No supported method has a colon in its name.
pub proof fn lemma_names_hold_no_colon(method: Method)
    ensures
        forall|i: int| 0 <= i < method.name().len() ==> #[trigger] method.name()[i] != ':',
{
    reveal_strlit("GET");
    reveal_strlit("POST");
    reveal_strlit("PUT");
    reveal_strlit("DELETE");
    reveal_strlit("PATCH");
}

} // verus!
