//! The two places where the library leans on `serde_json`: writing a text as a
//! JSON string, and reading a text member out of a JSON document.

use crate::text::text_of;
use vstd::prelude::*;
use vstd::string::*;

verus! {

/// The JSON string that `serde_json` writes for `text`: the text between
/// double quotes, with an escape wherever JSON asks for one.
pub uninterp spec fn json_string(text: Seq<char>) -> Seq<char>;

/// What `serde_json` reads out of `body` under the key `member`.
///
/// `Err(cause)` where `body` is no JSON document, with the parser's message;
/// `Ok(Some(text))` where the document is an object that holds a string under
/// `member`; `Ok(None)` for every other document.
pub uninterp spec fn json_text_member(body: Seq<u8>, member: Seq<char>) -> Result<
    Option<Seq<char>>,
    Seq<char>,
>;

/// The outcome of a lookup with its texts taken as sequences of characters.
pub open spec fn lookup_view(found: Result<Option<String>, String>) -> Result<
    Option<Seq<char>>,
    Seq<char>,
> {
    match found {
        Ok(member) => Ok(text_of(member)),
        Err(cause) => Err(cause@),
    }
}

/// Trusted: `serde_json::Value::from(&str)` followed by the `Display` of the
/// value, which prints compact JSON. The result is taken to be the string
/// literal that `serde_json` writes for `text`.
#[verifier::external_body]
pub(crate) fn quote(text: &str) -> (literal: String)
    ensures
        literal@ == json_string(text@),
{
    serde_json::Value::from(text).to_string()
}

/// Trusted: `serde_json::from_slice::<Value>` on `body`, then the index
/// operator of `Value` with `member` and `Value::as_str` on what it finds. A
/// parse error is handed back as its `Display` text. The outcome is taken to
/// depend on `body` and `member` alone.
#[verifier::external_body]
pub(crate) fn text_member(body: &[u8], member: &str) -> (found: Result<Option<String>, String>)
    ensures
        lookup_view(found) == json_text_member(body@, member@),
{
    match serde_json::from_slice::<serde_json::Value>(body) {
        Ok(document) => Ok(document[member].as_str().map(String::from)),
        Err(error) => Err(error.to_string()),
    }
}

} // verus!
