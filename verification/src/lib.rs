//! A verified core for a small GitHub relay: it validates a caller-supplied
//! HTTP request description (method, URL, headers, body) against a fixed
//! allow-list, fills in a default `User-Agent` header when none is given, and
//! interprets the upstream response (status and body text) as either a JSON
//! value or a descriptive error.
//!
//! The actual network call is not made here: callers obtain a fully prepared
//! outbound request from [`relay::prepare`], dispatch it with whatever HTTP
//! client they use, and hand the resulting status and body text to
//! [`response::interpret_response`].

pub mod relay;
pub mod response;
pub mod text;
