//! Interpretation of the upstream response.
//!
//! Given the status code and the body text of the upstream answer,
//! [`interpret_response`] decides the relay's result: a non-2xx status
//! becomes an [`RelayError::Upstream`] carrying the status and the raw
//! text; a 2xx body is parsed as JSON when it parses, and wrapped as a
//! plain string when it does not — a non-JSON success body never fails the
//! call.

use vstd::prelude::*;

use crate::relay::RelayError;
use crate::relay::error_message;

verus! {

#[verifier::external_type_specification]
#[verifier::external_body]
pub struct ExValue(serde_json::Value);

/// Whether `s` is well-formed JSON, i.e. whether `serde_json::from_str`
/// parses it as a `serde_json::Value`; parsing depends on the text alone.
pub uninterp spec fn json_parses(s: Seq<char>) -> bool;

/// The JSON value that well-formed text parses to; like [`json_parses`], a
/// function of the text alone.
pub uninterp spec fn json_value_of(s: Seq<char>) -> serde_json::Value;

/// Relies on serde_json::from_str::<Value>: whether the text parses, and
/// to which value, are functions of the text alone.
#[verifier::external_body]
fn parse_json(s: &str) -> (r: Option<serde_json::Value>)
    ensures
        r is Some == json_parses(s@),
        r matches Some(v) ==> v == json_value_of(s@),
{
    serde_json::from_str::<serde_json::Value>(s).ok()
}

/// The JSON string value that wraps the given text; a function of the text
/// alone.
pub uninterp spec fn json_wrapped(s: Seq<char>) -> serde_json::Value;

/// Relies on serde_json::Value::String: wraps the text as a JSON string
/// value.
#[verifier::external_body]
fn json_string(s: String) -> (r: serde_json::Value)
    ensures
        r == json_wrapped(s@),
{
    serde_json::Value::String(s)
}

/// A successful relay result: the body parsed as JSON, or — when it was
/// not JSON — the raw text, to be wrapped as a JSON string.
pub enum RelayValue {
    Json(serde_json::Value),
    Text(String),
}

/// The status is in the HTTP success range.
pub open spec fn status_success(status: u16) -> bool {
    200 <= status < 300
}

/// Decides the relay's result from the upstream status and body text.
///
/// Succeeds exactly on a 2xx status; a non-2xx status yields
/// `RelayError::Upstream` with that status and the raw text untruncated.
/// On success the body is `Json` with the text's parse exactly when the
/// text parses as JSON, and otherwise `Text` with the text unchanged.
pub fn interpret_response(status: u16, text: String) -> (r: Result<RelayValue, RelayError>)
    ensures
        r is Ok <==> status_success(status),
        !status_success(status) ==> (r matches Err(RelayError::Upstream { status: s, body })
            && s == status && body@ == text@),
        status_success(status) && json_parses(text@) ==> (r matches Ok(RelayValue::Json(v))
            && v == json_value_of(text@)),
        status_success(status) && !json_parses(text@) ==> (r matches Ok(RelayValue::Text(t))
            && t@ == text@),
{
    if !(200 <= status && status < 300) {
        return Err(RelayError::Upstream { status, body: text });
    }
    match parse_json(text.as_str()) {
        Some(v) => Ok(RelayValue::Json(v)),
        None => Ok(RelayValue::Text(text)),
    }
}

impl RelayValue {
    /// The result as one JSON value: a parsed body exactly as it is, a
    /// non-JSON body wrapped as the JSON string holding its text.
    pub fn into_json(self) -> (r: serde_json::Value)
        ensures
            self matches RelayValue::Json(v) ==> r == v,
            self matches RelayValue::Text(t) ==> r == json_wrapped(t@),
    {
        match self {
            RelayValue::Json(v) => v,
            RelayValue::Text(s) => json_string(s),
        }
    }
}

/// Decides the relay's result and renders it for the caller's boundary:
/// one JSON value on success, one descriptive message string on failure.
///
/// Succeeds exactly on a 2xx status, with the body's parse when it is
/// JSON and the JSON string wrapping the raw text when it is not; the
/// message of a non-2xx status embeds the status in decimal and the raw
/// body text.
pub fn finish_response(status: u16, text: String) -> (r: Result<serde_json::Value, String>)
    ensures
        r is Ok <==> status_success(status),
        status_success(status) && json_parses(text@) ==> (r matches Ok(v) && v == json_value_of(
            text@,
        )),
        status_success(status) && !json_parses(text@) ==> (r matches Ok(v) && v == json_wrapped(
            text@,
        )),
        !status_success(status) ==> (r matches Err(m) && m@ == error_message(
            RelayError::Upstream { status, body: text },
        )),
{
    match interpret_response(status, text) {
        Ok(v) => Ok(v.into_json()),
        Err(e) => Err(e.message()),
    }
}

} // verus!
