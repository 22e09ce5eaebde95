//! Validation and preparation of relay requests.
//!
//! A [`RelayRequest`] describes what the caller wants sent. [`prepare`]
//! checks the target URL against the allow-list and the method against the
//! HTTP token grammar, fills in the default `User-Agent` header when the
//! caller supplied none, and returns an [`OutboundRequest`] ready for
//! dispatch by an HTTP client outside this crate.

use vstd::prelude::*;
use vstd::string::StringExecFns;

use crate::text::dec_digits;
use crate::text::is_valid_method;
use crate::text::method_is_valid;
use crate::text::seq_ieq;
use crate::text::seq_starts_with;
use crate::text::str_eq_ignore_ascii_case;
use crate::text::str_starts_with;
use crate::text::u16_to_decimal;

verus! {

/// A request as described by the caller: an HTTP method, a target URL,
/// optional headers (name–value pairs), and an optional body.
pub struct RelayRequest {
    pub method: String,
    pub url: String,
    pub headers: Option<Vec<(String, String)>>,
    pub body: Option<String>,
}

/// A validated request, ready to be dispatched: the method is a valid HTTP
/// token, the URL is allow-listed, and the headers always carry a
/// `User-Agent` entry.
pub struct OutboundRequest {
    pub method: String,
    pub url: String,
    pub headers: Vec<(String, String)>,
    pub body: Option<String>,
}

/// Why a relay call failed.
#[derive(Debug, PartialEq, Eq)]
pub enum RelayError {
    /// The URL does not start with an allow-listed prefix.
    InvalidTarget,
    /// The method is not a syntactically valid HTTP token.
    InvalidMethod { method: String },
    /// The upstream host answered with a status outside the 2xx range.
    Upstream { status: u16, body: String },
    /// The outbound request could not be sent or its response not read;
    /// carries the transport's own description verbatim.
    Transport { detail: String },
}

/// The URL targets one of the two allowed origins: the prefix match is
/// anchored at the start of the string.
pub open spec fn url_allowed(u: Seq<char>) -> bool {
    seq_starts_with(u, "https://api.github.com/"@) || seq_starts_with(u, "https://github.com/"@)
}

/// Whether `url` may be relayed to.
pub fn url_is_allowed(url: &str) -> (r: bool)
    ensures
        r == url_allowed(url@),
{
    str_starts_with(url, "https://api.github.com/") || str_starts_with(url, "https://github.com/")
}

/// The views of a header list's names and values.
pub open spec fn pair_views(h: Seq<(String, String)>) -> Seq<(Seq<char>, Seq<char>)> {
    h.map_values(|p: (String, String)| (p.0@, p.1@))
}

/// Some header name equals `User-Agent` up to ASCII case.
pub open spec fn has_user_agent_key(h: Seq<(String, String)>) -> bool {
    exists|i: int| 0 <= i < h.len() && seq_ieq(h[i].0@, "user-agent"@)
}

/// The headers the caller gave, as a sequence: an absent mapping counts as
/// an empty one.
pub open spec fn given_headers(h: Option<Vec<(String, String)>>) -> Seq<(String, String)> {
    match h {
        Some(v) => v@,
        None => Seq::empty(),
    }
}

/// What goes out on the wire: the caller's headers, exactly as given, plus
/// the default `User-Agent` appended only when no name matches
/// `User-Agent` case-insensitively.
pub open spec fn outbound_headers(h: Seq<(String, String)>) -> Seq<(Seq<char>, Seq<char>)> {
    if has_user_agent_key(h) {
        pair_views(h)
    } else {
        pair_views(h).push(("User-Agent"@, "AstroBoxCreatorConsole"@))
    }
}

/// When some header name already matches `User-Agent` up to ASCII case —
/// whatever its case — no default is injected: the outbound headers are
/// the caller's, each name and value preserved exactly.
pub proof fn lemma_user_agent_preserved(h: Seq<(String, String)>)
    requires
        has_user_agent_key(h),
    ensures
        outbound_headers(h) == pair_views(h),
{
}

/// When no header name matches `User-Agent` in any case, the outbound
/// headers are the caller's followed by exactly one new entry: the default
/// `User-Agent`.
pub proof fn lemma_user_agent_injected(h: Seq<(String, String)>)
    requires
        !has_user_agent_key(h),
    ensures
        outbound_headers(h) == pair_views(h).push(("User-Agent"@, "AstroBoxCreatorConsole"@)),
        outbound_headers(h).len() == h.len() + 1,
        outbound_headers(h)[h.len() as int] == ("User-Agent"@, "AstroBoxCreatorConsole"@),
{
}

/// Whether the header list already names a `User-Agent`, compared
/// case-insensitively.
pub fn headers_have_user_agent(h: &Vec<(String, String)>) -> (r: bool)
    ensures
        r == has_user_agent_key(h@),
{
    let mut i: usize = 0;
    while i < h.len()
        invariant
            i <= h@.len(),
            forall|j: int| 0 <= j < i ==> !seq_ieq(h@[j].0@, "user-agent"@),
        decreases h@.len() - i,
    {
        if str_eq_ignore_ascii_case(h[i].0.as_str(), "user-agent") {
            return true;
        }
        i = i + 1;
    }
    false
}

/// The view of an optional body.
pub open spec fn opt_view(o: Option<String>) -> Option<Seq<char>> {
    match o {
        Some(s) => Some(s@),
        None => None,
    }
}

/// Validates a relay request and resolves its outbound form.
///
/// Fails with `InvalidTarget` exactly when the URL is not allow-listed,
/// then with `InvalidMethod` exactly when the method is not a valid HTTP
/// token; otherwise succeeds with the caller's method, URL and body
/// unchanged, and the headers as given plus the default `User-Agent` only
/// when none was present. No network activity happens here or anywhere in
/// this crate: a caller that dispatches only `Ok` results performs no I/O
/// for rejected requests.
pub fn prepare(req: RelayRequest) -> (r: Result<OutboundRequest, RelayError>)
    ensures
        r is Err <==> (!url_allowed(req.url@) || !is_valid_method(req.method@)),
        !url_allowed(req.url@) ==> (r matches Err(e) && e is InvalidTarget),
        url_allowed(req.url@) && !is_valid_method(req.method@) ==> (r matches Err(
            RelayError::InvalidMethod { method },
        ) && method@ == req.method@),
        r matches Ok(out) ==> {
            &&& out.method@ == req.method@
            &&& out.url@ == req.url@
            &&& opt_view(out.body) == opt_view(req.body)
            &&& pair_views(out.headers@) == outbound_headers(given_headers(req.headers))
        },
{
    if !url_is_allowed(req.url.as_str()) {
        return Err(RelayError::InvalidTarget);
    }
    if !method_is_valid(req.method.as_str()) {
        return Err(RelayError::InvalidMethod { method: req.method });
    }
    let mut headers = match req.headers {
        Some(h) => h,
        None => Vec::new(),
    };
    let ghost base = headers@;
    if !headers_have_user_agent(&headers) {
        headers.push(("User-Agent".to_owned(), "AstroBoxCreatorConsole".to_owned()));
        assert(pair_views(headers@) =~= pair_views(base).push(
            ("User-Agent"@, "AstroBoxCreatorConsole"@),
        ));
    }
    Ok(OutboundRequest { method: req.method, url: req.url, headers, body: req.body })
}

/// The message for each failure, as surfaced to the caller.
pub open spec fn error_message(e: RelayError) -> Seq<char> {
    match e {
        RelayError::InvalidTarget => "Only GitHub endpoints are allowed"@,
        RelayError::InvalidMethod { method } => "Invalid HTTP method: "@ + method@,
        RelayError::Upstream { status, body } => "GitHub request failed ("@ + dec_digits(
            status as nat,
        ) + "): "@ + body@,
        RelayError::Transport { detail } => detail@,
    }
}

impl RelayError {
    /// Renders the error as the plain string the relay boundary reports:
    /// the fixed allow-list message, the offending method, the upstream
    /// status (in decimal) with the raw response text, or the transport's
    /// description verbatim.
    pub fn message(&self) -> (r: String)
        ensures
            r@ == error_message(*self),
    {
        match self {
            RelayError::InvalidTarget => "Only GitHub endpoints are allowed".to_owned(),
            RelayError::InvalidMethod { method } => {
                let mut s = "Invalid HTTP method: ".to_owned();
                s.append(method.as_str());
                s
            },
            RelayError::Upstream { status, body } => {
                let mut s = "GitHub request failed (".to_owned();
                let num = u16_to_decimal(*status);
                s.append(num.as_str());
                s.append("): ");
                s.append(body.as_str());
                s
            },
            RelayError::Transport { detail } => detail.clone(),
        }
    }
}

} // verus!
