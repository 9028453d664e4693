//! Adapter configuration: the readiness protocol, the invoke mode, and the
//! option set the adapter is constructed from.
//!
//! Resolving options from the process environment is the runtime's concern;
//! this module holds the option record itself and its documented defaults.

use vstd::prelude::*;
use crate::text::{seq_eq_ci, str_eq_ci};

verus! {

/// How the readiness check probes the application: an HTTP GET, or a bare
/// TCP connection attempt.
#[derive(Clone, Copy, Debug, Default, Eq, PartialEq, Structural)]
pub enum Protocol {
    #[default]
    Http,
    Tcp,
}

/// The name `"tcp"`, ASCII-case-insensitively, names [`Protocol::Tcp`];
/// anything else names [`Protocol::Http`].
pub open spec fn protocol_of(s: Seq<char>) -> Protocol {
    if seq_eq_ci(s, "tcp"@) {
        Protocol::Tcp
    } else {
        Protocol::Http
    }
}

impl<'a> From<&'a str> for Protocol {
    fn from(value: &'a str) -> (r: Self) {
        if str_eq_ci(value, "tcp") {
            Protocol::Tcp
        } else {
            Protocol::Http
        }
    }
}

impl<'a> vstd::std_specs::convert::FromSpecImpl<&'a str> for Protocol {
    open spec fn obeys_from_spec() -> bool {
        true
    }

    open spec fn from_spec(v: &'a str) -> Protocol {
        protocol_of(v@)
    }
}

/// How the platform delivers the response: buffered whole, or streamed.
#[derive(Clone, Copy, Debug, Default, Eq, PartialEq, Structural)]
pub enum LambdaInvokeMode {
    #[default]
    Buffered,
    ResponseStream,
}

/// The name `"response_stream"`, ASCII-case-insensitively, names
/// [`LambdaInvokeMode::ResponseStream`]; anything else names
/// [`LambdaInvokeMode::Buffered`].
pub open spec fn invoke_mode_of(s: Seq<char>) -> LambdaInvokeMode {
    if seq_eq_ci(s, "response_stream"@) {
        LambdaInvokeMode::ResponseStream
    } else {
        LambdaInvokeMode::Buffered
    }
}

impl<'a> From<&'a str> for LambdaInvokeMode {
    fn from(value: &'a str) -> (r: Self) {
        if str_eq_ci(value, "response_stream") {
            LambdaInvokeMode::ResponseStream
        } else {
            LambdaInvokeMode::Buffered
        }
    }
}

impl<'a> vstd::std_specs::convert::FromSpecImpl<&'a str> for LambdaInvokeMode {
    open spec fn obeys_from_spec() -> bool {
        true
    }

    open spec fn from_spec(v: &'a str) -> LambdaInvokeMode {
        invoke_mode_of(v@)
    }
}

/// Everything the adapter is configured with. Immutable once the adapter is
/// constructed.
pub struct AdapterOptions {
    /// Host of the application and of the readiness check.
    pub host: String,
    /// Port the application listens on, as decimal text.
    pub port: String,
    /// Port the readiness check probes, as decimal text.
    pub readiness_check_port: String,
    /// Path the readiness check requests.
    pub readiness_check_path: String,
    /// Probe over HTTP or over bare TCP.
    pub readiness_check_protocol: Protocol,
    /// A probe status below this bound (and at or above 100) is healthy.
    pub readiness_check_min_unhealthy_status: u16,
    /// A prefix to strip from incoming paths, when configured.
    pub base_path: Option<String>,
    /// The path that replaces the resolved one for pass-through events.
    pub pass_through_path: String,
    /// Time-box the readiness wait at init and finish it on the first call.
    pub async_init: bool,
    /// Wrap the adapter in response compression.
    pub compression: bool,
    /// Buffered or streaming response delivery.
    pub invoke_mode: LambdaInvokeMode,
    /// A header whose value moves to `authorization`, when configured.
    pub authorization_source: Option<String>,
    /// Upstream statuses to surface as invocation failures, when configured.
    pub error_status_codes: Option<Vec<u16>>,
    /// Replace the pooled client after this many idle milliseconds.
    pub client_idle_timeout_ms: u64,
    /// Attach the serialized platform contexts as request headers.
    pub forward_context: bool,
}

impl Default for AdapterOptions {
    /// The documented defaults: a local application on port 8080, probed
    /// over HTTP at `/` with statuses below 500 healthy, no base path, no
    /// authorization rewrite, no error statuses, a four-second client idle
    /// bound, and contexts forwarded.
    fn default() -> (r: Self)
        ensures
            r.host@ == "127.0.0.1"@,
            r.port@ == "8080"@,
            r.readiness_check_port@ == "8080"@,
            r.readiness_check_path@ == "/"@,
            r.readiness_check_protocol == Protocol::Http,
            r.readiness_check_min_unhealthy_status == 500,
            r.base_path is None,
            r.pass_through_path@ == "/events"@,
            !r.async_init,
            !r.compression,
            r.invoke_mode == LambdaInvokeMode::Buffered,
            r.authorization_source is None,
            r.error_status_codes is None,
            r.client_idle_timeout_ms == 4000,
            r.forward_context,
    {
        AdapterOptions {
            host: String::from_str("127.0.0.1"),
            port: String::from_str("8080"),
            readiness_check_port: String::from_str("8080"),
            readiness_check_path: String::from_str("/"),
            readiness_check_protocol: Protocol::Http,
            readiness_check_min_unhealthy_status: 500,
            base_path: None,
            pass_through_path: String::from_str("/events"),
            async_init: false,
            compression: false,
            invoke_mode: LambdaInvokeMode::Buffered,
            authorization_source: None,
            error_status_codes: None,
            client_idle_timeout_ms: 4000,
            forward_context: true,
        }
    }
}

/// Compression requires buffering the whole body, so it is disabled when
/// the invoke mode streams; the caller logs a warning in that case.
pub fn effective_compression(compression: bool, invoke_mode: LambdaInvokeMode) -> (r: bool)
    ensures
        r == (compression && invoke_mode == LambdaInvokeMode::Buffered),
{
    compression && matches!(invoke_mode, LambdaInvokeMode::Buffered)
}

} // verus!
