//! The extension-registration lifecycle's decisions.
//!
//! The adapter registers itself as a platform extension with one POST to
//! the local control-plane API, then holds the registration open with one
//! long-poll GET. The runtime performs the two calls; this module builds
//! them and decides what each response means. A failed registration is
//! fatal to the whole process — the platform delivers no invocations to a
//! process whose registration failed — while a failed long poll merely
//! ends the background task, because by then invocations already flow.

use vstd::prelude::*;

verus! {

/// One control-plane request, as plain values: a method, a path on the
/// control-plane host, one header, and a body.
#[derive(Debug, PartialEq, Eq)]
pub struct ControlPlaneRequest {
    pub method: String,
    pub path: String,
    pub header_name: String,
    pub header_value: String,
    pub body: String,
}

/// The registration request: a POST with an empty event-interest list,
/// named by the extension-name header.
pub fn register_request() -> (r: ControlPlaneRequest)
    ensures
        r.method@ == "POST"@,
        r.path@ == "/2020-01-01/extension/register"@,
        r.header_name@ == "Lambda-Extension-Name"@,
        r.header_value@ == "lambda-adapter"@,
        r.body@ == "{ \"events\": [] }"@,
{
    ControlPlaneRequest {
        method: String::from_str("POST"),
        path: String::from_str("/2020-01-01/extension/register"),
        header_name: String::from_str("Lambda-Extension-Name"),
        header_value: String::from_str("lambda-adapter"),
        body: String::from_str("{ \"events\": [] }"),
    }
}

/// The long-poll request that keeps a registration alive, carrying the
/// identifier the registration response handed back. The call blocks by
/// design and its result is discarded.
pub fn next_event_request(extension_id: String) -> (r: ControlPlaneRequest)
    ensures
        r.method@ == "GET"@,
        r.path@ == "/2020-01-01/extension/event/next"@,
        r.header_name@ == "Lambda-Extension-Identifier"@,
        r.header_value@ == extension_id@,
        r.body@ == ""@,
{
    ControlPlaneRequest {
        method: String::from_str("GET"),
        path: String::from_str("/2020-01-01/extension/event/next"),
        header_name: String::from_str("Lambda-Extension-Identifier"),
        header_value: extension_id,
        body: String::from_str(""),
    }
}

/// What the registration response requires of the runtime.
#[derive(Debug, PartialEq, Eq)]
pub enum RegisterDecision {
    /// Registration failed: stop the whole process, loudly.
    Fatal,
    /// Registered: hold the registration open with one long poll carrying
    /// this identifier.
    Poll(String),
}

/// Decide on a registration response: anything but a 200 with an
/// extension identifier is fatal.
pub fn register_decision(status: u16, extension_id: Option<String>) -> (r: RegisterDecision)
    ensures
        r is Fatal <==> (status != 200 || extension_id is None),
        r matches RegisterDecision::Poll(id) ==> extension_id matches Some(given) && id == given,
{
    if status != 200 {
        return RegisterDecision::Fatal;
    }
    match extension_id {
        Some(id) => RegisterDecision::Poll(id),
        None => RegisterDecision::Fatal,
    }
}

} // verus!
