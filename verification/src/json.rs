//! JSON text as the command-line client handles it: a body argument is read
//! and re-encoded by serde_json before it is sent, and a reply is shown
//! pretty-printed when it is JSON and as it came otherwise.

use vstd::prelude::*;
use crate::text::owned;

verus! {

/// What serde_json makes of `text` read as a `serde_json::Value`: the
/// value's compact encoding, or the text of the parse error.
pub uninterp spec fn serde_json_body(text: Seq<char>) -> Result<Seq<char>, Seq<char>>;

/// The pretty-printed encoding serde_json gives of `text` read as a
/// `serde_json::Value`, or `None` where `text` is not JSON.
pub uninterp spec fn serde_json_pretty(text: Seq<char>) -> Option<Seq<char>>;

/// `serde_json::from_str::<serde_json::Value>(text)`, the value written
/// back with `to_string`, or the error's message. The contract names
/// serde_json's answer; which texts it accepts is not stated here.
#[verifier::external_body]
pub(crate) fn json_body(text: &str) -> (r: Result<String, String>)
    ensures
        match r {
            Ok(s) => serde_json_body(text@) == Ok::<Seq<char>, Seq<char>>(s@),
            Err(e) => serde_json_body(text@) == Err::<Seq<char>, Seq<char>>(e@),
        },
{
    match serde_json::from_str::<serde_json::Value>(text) {
        Ok(v) => Ok(v.to_string()),
        Err(e) => Err(e.to_string()),
    }
}

/// `serde_json::from_str::<serde_json::Value>(text)` written back with
/// `serde_json::to_string_pretty`, or `None` where `text` is not JSON. The
/// contract names serde_json's answer.
#[verifier::external_body]
pub(crate) fn json_pretty(text: &str) -> (r: Option<String>)
    ensures
        match r {
            Some(s) => serde_json_pretty(text@) == Some(s@),
            None => serde_json_pretty(text@) is None,
        },
{
    match serde_json::from_str::<serde_json::Value>(text) {
        Ok(v) => serde_json::to_string_pretty(&v).ok(),
        Err(_) => None,
    }
}

/// A reply as the client prints it: pretty-printed when it is JSON, as it
/// came otherwise.
pub fn reply_text(text: &str) -> (r: String)
    ensures
        r@ == (match serde_json_pretty(text@) {
            Some(p) => p,
            None => text@,
        }),
{
    match json_pretty(text) {
        Some(p) => p,
        None => owned(text),
    }
}

} // verus!
