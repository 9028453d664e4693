//! The invocation model the translator works on: the inbound platform
//! event, the outbound upstream request, path resolution, URI assembly,
//! body materialization, the response-header scrub, and the adapter's
//! error type.

use vstd::prelude::*;
use crate::headers::{hv, remove_hv, Header};
use crate::text::{dec_chars, str_starts_with, u16_to_string};
use vstd::utf8::encode_utf8;

verus! {

/// The body of an inbound event: absent, UTF-8 text, or raw bytes (the
/// platform delivers binary bodies base64-encoded; the runtime decodes
/// them before they reach the translator).
#[derive(Debug, PartialEq, Eq)]
pub enum EventBody {
    Empty,
    Text(String),
    Binary(Vec<u8>),
}

/// The bytes a body stands for: nothing, the UTF-8 encoding of the text,
/// or the raw bytes unchanged.
pub open spec fn body_bytes_spec(b: EventBody) -> Seq<u8> {
    match b {
        EventBody::Empty => Seq::empty(),
        EventBody::Text(s) => encode_utf8(s@),
        EventBody::Binary(v) => v@,
    }
}

/// Materialize a body as bytes. The empty and binary cases pass through;
/// only the text case converts, and that conversion is the lossless UTF-8
/// encoding.
pub fn body_bytes(b: EventBody) -> (r: Vec<u8>)
    ensures
        r@ == body_bytes_spec(b),
{
    match b {
        EventBody::Empty => Vec::new(),
        EventBody::Text(s) => s.as_str().as_bytes_vec(),
        EventBody::Binary(v) => v,
    }
}

/// One platform-delivered invocation, as plain values: the runtime reads
/// the platform's event shape and hands the translator exactly these
/// fields.
pub struct InboundEvent {
    /// The HTTP method name, upper case.
    pub method: String,
    /// The raw, still percent-encoded request path.
    pub raw_path: String,
    /// The raw query string, without `?`, forwarded verbatim.
    pub query: Option<String>,
    /// The event's headers; duplicate names are preserved.
    pub headers: Vec<Header>,
    /// The event's body.
    pub body: EventBody,
    /// The platform request context, in its canonical serialized text.
    pub request_context_json: String,
    /// The platform invocation context, in its canonical serialized text.
    pub lambda_context_json: String,
    /// The event is pass-through shaped: a generic payload rather than a
    /// structured HTTP call.
    pub pass_through: bool,
    /// The tenant identifier of the invocation context, when one is
    /// present.
    pub tenant_id: Option<String>,
}

/// The request the adapter sends to the application.
#[derive(Debug, PartialEq, Eq)]
pub struct OutboundRequest {
    pub method: String,
    pub uri: String,
    pub headers: Vec<Header>,
    pub body: Vec<u8>,
}

/// A translated request, with the warnings the runtime should log.
#[derive(Debug, PartialEq, Eq)]
pub struct Translation {
    pub request: OutboundRequest,
    /// The configured authorization-source header was absent; the request
    /// goes on without an `authorization` rewrite.
    pub auth_source_missing: bool,
    /// The tenant identifier cannot stand as a header value; the header
    /// was skipped.
    pub tenant_id_skipped: bool,
}

/// What can go wrong in the adapter's own logic.
#[derive(Debug, PartialEq, Eq)]
pub enum AdapterError {
    /// The configured host is not a valid URL host.
    InvalidHost,
    /// The configured application port is not a decimal `u16`.
    InvalidPort,
    /// The configured readiness-check port is not a decimal `u16`.
    InvalidReadinessPort,
    /// A serialized platform context cannot stand as a header value.
    InvalidContextHeader,
    /// The upstream response carried a status the configuration surfaces
    /// as a failure.
    ErrorStatus(u16),
}

impl AdapterError {
    /// The error's text.
    pub fn message(&self) -> (r: String)
        ensures
            match self {
                AdapterError::InvalidHost => r@ == "invalid host"@,
                AdapterError::InvalidPort => r@ == "invalid port"@,
                AdapterError::InvalidReadinessPort => r@ == "invalid readiness check port"@,
                AdapterError::InvalidContextHeader => (r@
                    == "context is not a valid header value"@),
                AdapterError::ErrorStatus(c) => (r@
                    == "Request failed with configured error status code: "@ + dec_chars(
                    c as nat,
                )),
            },
    {
        match self {
            AdapterError::InvalidHost => String::from_str("invalid host"),
            AdapterError::InvalidPort => String::from_str("invalid port"),
            AdapterError::InvalidReadinessPort => String::from_str("invalid readiness check port"),
            AdapterError::InvalidContextHeader => String::from_str(
                "context is not a valid header value",
            ),
            AdapterError::ErrorStatus(c) => {
                let mut s = String::from_str("Request failed with configured error status code: ");
                let digits = u16_to_string(*c);
                s.append(digits.as_str());
                s
            },
        }
    }
}

/// The resolved path: `p` with one leading copy of `b` removed when `p`
/// starts with `b` (a byte-prefix match, not a segment-aware one), and
/// `p` unchanged otherwise.
pub open spec fn strip_prefix_spec(p: Seq<char>, b: Seq<char>) -> Seq<char> {
    if b.is_prefix_of(p) {
        p.skip(b.len() as int)
    } else {
        p
    }
}

/// Strip a configured base path off the front of a raw path.
pub fn resolve_path(base_path: &Option<String>, raw_path: &String) -> (r: String)
    ensures
        match base_path {
            Some(b) => r@ == strip_prefix_spec(raw_path@, b@),
            None => r@ == raw_path@,
        },
{
    match base_path {
        Some(b) => {
            if str_starts_with(raw_path.as_str(), b.as_str()) {
                let n = b.as_str().unicode_len();
                let m = raw_path.as_str().unicode_len();
                let rest = String::from_str(raw_path.as_str().substring_char(n, m));
                proof {
                    assert(raw_path@.subrange(n as int, m as int) =~= raw_path@.skip(n as int));
                }
                rest
            } else {
                raw_path.clone()
            }
        },
        None => raw_path.clone(),
    }
}

/// The upstream request URI: scheme, host, port, the resolved path
/// verbatim, and the original query string verbatim when there is one.
pub open spec fn uri_chars(
    host: Seq<char>,
    port: u16,
    path: Seq<char>,
    query: Option<Seq<char>>,
) -> Seq<char> {
    let base = "http://"@ + host + ":"@ + dec_chars(port as nat) + path;
    match query {
        Some(q) => base + "?"@ + q,
        None => base,
    }
}

/// Render an upstream URI.
pub fn build_uri(host: &String, port: u16, path: &str, query: &Option<String>) -> (r: String)
    ensures
        r@ == uri_chars(
            host@,
            port,
            path@,
            match query {
                Some(q) => Some(q@),
                None => None,
            },
        ),
{
    let mut s = String::from_str("http://");
    s.append(host.as_str());
    s.append(":");
    let digits = u16_to_string(port);
    s.append(digits.as_str());
    s.append(path);
    match query {
        Some(q) => {
            s.append("?");
            s.append(q.as_str());
            proof {
                assert(s@ =~= uri_chars(host@, port, path@, Some(q@)));
            }
        },
        None => {
            proof {
                assert(s@ =~= uri_chars(host@, port, path@, None::<Seq<char>>));
            }
        },
    }
    s
}

/// Remove `transfer-encoding` from an upstream response's headers before
/// the response goes back to the platform.
pub fn scrub_response_headers(hs: Vec<Header>) -> (r: Vec<Header>)
    ensures
        hv(r@) == remove_hv(hv(hs@), "transfer-encoding"@),
{
    let (kept, _) = crate::headers::remove_named(hs, "transfer-encoding");
    kept
}

/// Base-path stripping, case by case: when the incoming path starts with
/// the configured base path, the forwarded path is the incoming one with
/// that prefix removed, and otherwise the incoming path is forwarded
/// unchanged.
pub proof fn lemma_base_path_strip(p: Seq<char>, b: Seq<char>)
    ensures
        b.is_prefix_of(p) ==> strip_prefix_spec(p, b) == p.skip(b.len() as int),
        !b.is_prefix_of(p) ==> strip_prefix_spec(p, b) == p,
{
}

} // verus!
