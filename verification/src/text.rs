//! Small operations on text that the rest of the library shares.

use vstd::prelude::*;
use vstd::string::StringExecFns;

verus! {

/// Whether two texts hold the same characters.
pub fn same_text(left: &str, right: &str) -> (same: bool)
    ensures
        same == (left@ == right@),
{
    String::from_str(left) == String::from_str(right)
}

/// An owned copy of a text.
pub fn owned(text: &str) -> (copy: String)
    ensures
        copy@ == text@,
{
    String::from_str(text)
}

/// A label followed by a detail, as error messages are built.
pub fn labelled(label: &str, detail: &str) -> (message: String)
    ensures
        message@ == label@ + detail@,
{
    let mut message = String::from_str(label);
    message.append(detail);
    message
}

} // verus!
