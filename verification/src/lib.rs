//! A verified core for a process-local reverse-proxy adapter that lets an
//! ordinary HTTP web application run inside a serverless request/response
//! execution environment.
//!
//! The library holds the decision and translation logic: readiness probing,
//! status-code parsing, event-to-request translation, the upstream client
//! pool's freshness policy, and the extension-registration lifecycle. All
//! network and process I/O stays outside, in the thin runtime that drives
//! these functions.

pub mod adapter;
pub mod checkpoint;
pub mod config;
pub mod extension;
pub mod headers;
pub mod host;
pub mod pool;
pub mod probe;
pub mod status;
pub mod text;
pub mod translate;

pub use adapter::{Adapter, ASYNC_INIT_WINDOW_MS};
pub use checkpoint::Checkpoint;
pub use config::{effective_compression, AdapterOptions, LambdaInvokeMode, Protocol};
pub use extension::{
    next_event_request, register_decision, register_request, ControlPlaneRequest, RegisterDecision,
};
pub use headers::Header;
pub use pool::ClientPool;
pub use probe::{probe_status_ready, ProbeOutcome, ProbeSession, ProbeStep, PROBE_RETRY_DELAY_MS};
pub use status::parse_status_codes;
pub use text::u16_to_string;
pub use translate::{
    body_bytes, resolve_path, scrub_response_headers, AdapterError, EventBody, InboundEvent,
    OutboundRequest, Translation,
};
