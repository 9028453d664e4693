//! The adapter itself: constructed once from the options, it owns the
//! resolved readiness target, the upstream base address, the ready flag,
//! and the pooled-client freshness state, and it makes every per-invocation
//! decision. The runtime around it performs the probes, sends the
//! requests, and logs the warnings these methods report.

use vstd::prelude::*;
use crate::config::{AdapterOptions, LambdaInvokeMode, Protocol};
use crate::headers::{
    has_hv, hv, insert_hv, lemma_filter_keeps_all, lemma_find_hv, remove_hv, valid_header_value,
    find_hv, is_valid_header_value,
};
use crate::host::{host_is_valid, host_ok};
use crate::pool::ClientPool;
use crate::probe::ProbeSession;
use crate::text::{parse_u16_spec, parse_u16_str, seq_eq_ci, str_eq};
use crate::translate::{
    body_bytes, body_bytes_spec, build_uri, resolve_path, strip_prefix_spec, uri_chars,
    AdapterError, InboundEvent, OutboundRequest, Translation,
};

verus! {

/// How long the init phase may wait for readiness in async-init mode, in
/// milliseconds, leaving headroom under the platform's own init bound.
pub const ASYNC_INIT_WINDOW_MS: u64 = 9800;

/// One adapter instance per process.
#[derive(Debug)]
pub struct Adapter {
    /// The application's host, as configured and validated.
    pub host: String,
    /// The application's port.
    pub port: u16,
    /// The readiness-check port.
    pub healthcheck_port: u16,
    /// The readiness-check path.
    pub healthcheck_path: String,
    /// The rendered readiness-check URL, derived once at construction.
    pub healthcheck_url: String,
    /// Probe over HTTP or over bare TCP.
    pub healthcheck_protocol: Protocol,
    /// A probe status below this bound (and at or above 100) is healthy.
    pub healthcheck_min_unhealthy_status: u16,
    /// The rendered upstream base URL, derived once at construction.
    pub domain: String,
    /// Time-box the readiness wait at init and finish it on the first call.
    pub async_init: bool,
    /// The sticky ready flag: set once the application probed healthy.
    pub ready_at_init: bool,
    /// A prefix to strip from incoming paths, when configured.
    pub base_path: Option<String>,
    /// The path that replaces the resolved one for pass-through events.
    pub pass_through_path: String,
    /// Wrap the adapter in response compression.
    pub compression: bool,
    /// Buffered or streaming response delivery.
    pub invoke_mode: LambdaInvokeMode,
    /// A header whose value moves to `authorization`, when configured.
    pub authorization_source: Option<String>,
    /// Upstream statuses to surface as invocation failures, when configured.
    pub error_status_codes: Option<Vec<u16>>,
    /// Attach the serialized platform contexts as request headers.
    pub forward_context: bool,
    /// Freshness state of the pooled upstream client.
    pub pool: ClientPool,
}

/// Which error an invalid option set produces: an unacceptable host first,
/// then an unparsable application port, then an unparsable readiness port.
pub open spec fn construction_error(options: AdapterOptions) -> AdapterError {
    if !host_ok(options.host@) {
        AdapterError::InvalidHost
    } else if parse_u16_spec(options.port@) is None {
        AdapterError::InvalidPort
    } else {
        AdapterError::InvalidReadinessPort
    }
}

impl Adapter {
    /// The options parse: the host is acceptable and both ports are
    /// decimal `u16` text.
    pub open spec fn options_parse(options: AdapterOptions) -> bool {
        &&& host_ok(options.host@)
        &&& parse_u16_spec(options.port@) is Some
        &&& parse_u16_spec(options.readiness_check_port@) is Some
    }

    /// The constructed adapter carries exactly the configured values, with
    /// the ports parsed, the two URLs rendered, the ready flag down, and a
    /// fresh pool stamped at `now_ms`.
    pub open spec fn constructed_from(self, options: AdapterOptions, now_ms: u64) -> bool {
        &&& self.host@ == options.host@
        &&& Some(self.port) == parse_u16_spec(options.port@)
        &&& Some(self.healthcheck_port) == parse_u16_spec(options.readiness_check_port@)
        &&& self.healthcheck_path@ == options.readiness_check_path@
        &&& self.healthcheck_url@ == uri_chars(
            options.host@,
            self.healthcheck_port,
            options.readiness_check_path@,
            None,
        )
        &&& self.healthcheck_protocol == options.readiness_check_protocol
        &&& self.healthcheck_min_unhealthy_status == options.readiness_check_min_unhealthy_status
        &&& self.domain@ == uri_chars(options.host@, self.port, Seq::empty(), None)
        &&& self.async_init == options.async_init
        &&& !self.ready_at_init
        &&& (self.base_path is Some <==> options.base_path is Some)
        &&& (match (self.base_path, options.base_path) {
            (Some(b), Some(ob)) => b@ == ob@,
            _ => true,
        })
        &&& self.pass_through_path@ == options.pass_through_path@
        &&& self.compression == options.compression
        &&& self.invoke_mode == options.invoke_mode
        &&& (self.authorization_source is Some <==> options.authorization_source is Some)
        &&& (match (self.authorization_source, options.authorization_source) {
            (Some(a), Some(oa)) => a@ == oa@,
            _ => true,
        })
        &&& (self.error_status_codes is Some <==> options.error_status_codes is Some)
        &&& (match (self.error_status_codes, options.error_status_codes) {
            (Some(c), Some(oc)) => c@ == oc@,
            _ => true,
        })
        &&& self.forward_context == options.forward_context
        &&& self.pool.generation == 0
        &&& self.pool.last_invoke_ms == now_ms
        &&& self.pool.idle_timeout_ms == options.client_idle_timeout_ms
    }

    /// Construct an adapter. An invalid configuration — a host the URL
    /// parser rejects, or a port that is not decimal `u16` text — fails
    /// here, at construction, never at first use. `now_ms` is the current
    /// wall-clock time, stamping the fresh client pool.
    pub fn new(options: &AdapterOptions, now_ms: u64) -> (r: Result<Adapter, AdapterError>)
        ensures
            r is Ok <==> Self::options_parse(*options),
            r matches Ok(a) ==> a.constructed_from(*options, now_ms),
            r matches Err(e) ==> e == construction_error(*options),
    {
        if !host_is_valid(options.host.as_str()) {
            return Err(AdapterError::InvalidHost);
        }
        let port = match parse_u16_str(options.port.as_str()) {
            Some(p) => p,
            None => {
                return Err(AdapterError::InvalidPort);
            },
        };
        let healthcheck_port = match parse_u16_str(options.readiness_check_port.as_str()) {
            Some(p) => p,
            None => {
                return Err(AdapterError::InvalidReadinessPort);
            },
        };
        let healthcheck_url = build_uri(
            &options.host,
            healthcheck_port,
            options.readiness_check_path.as_str(),
            &None,
        );
        let empty = String::new();
        let domain = build_uri(&options.host, port, empty.as_str(), &None);
        let adapter = Adapter {
            host: options.host.clone(),
            port,
            healthcheck_port,
            healthcheck_path: options.readiness_check_path.clone(),
            healthcheck_url,
            healthcheck_protocol: options.readiness_check_protocol,
            healthcheck_min_unhealthy_status: options.readiness_check_min_unhealthy_status,
            domain,
            async_init: options.async_init,
            ready_at_init: false,
            base_path: options.base_path.clone(),
            pass_through_path: options.pass_through_path.clone(),
            compression: options.compression,
            invoke_mode: options.invoke_mode,
            authorization_source: options.authorization_source.clone(),
            error_status_codes: options.error_status_codes.clone(),
            forward_context: options.forward_context,
            pool: ClientPool::new(now_ms, options.client_idle_timeout_ms),
        };
        Ok(adapter)
    }

    /// The first call must still probe: async init is on and the ready
    /// flag has not been set.
    pub fn needs_init_probe(&self) -> (r: bool)
        ensures
            r == (self.async_init && !self.ready_at_init),
    {
        self.async_init && !self.ready_at_init
    }

    /// Set the sticky ready flag: once ready, always ready for the life
    /// of the process.
    pub fn mark_ready(&mut self, ready: bool)
        ensures
            *final(self) == (Adapter { ready_at_init: ready, ..*old(self) }),
    {
        self.ready_at_init = ready;
    }

    /// Begin a readiness-probing session against this adapter's target.
    pub fn probe_session(&self, now_ms: u64, deadline_ms: Option<u64>) -> (r: ProbeSession)
        ensures
            r.min_unhealthy_status == self.healthcheck_min_unhealthy_status,
            r.deadline_ms == deadline_ms,
            r.checkpoint.start_ms == now_ms,
    {
        ProbeSession::new(self.healthcheck_min_unhealthy_status, now_ms, deadline_ms)
    }

    /// Record an invocation start: report whether the runtime must replace
    /// its pooled client before dispatching, per the freshness policy.
    pub fn on_invoke(&mut self, now_ms: u64) -> (refreshed: bool)
        requires
            old(self).pool.generation < u64::MAX,
        ensures
            old(self).pool.spec_invoked(now_ms, final(self).pool, refreshed),
            *final(self) == (Adapter { pool: final(self).pool, ..*old(self) }),
    {
        self.pool.on_invoke(now_ms)
    }

    /// The resolved target path of an event: the configured base path is
    /// stripped off the front when it is a prefix, and a POST-method
    /// pass-through event goes to the configured pass-through path
    /// regardless.
    pub open spec fn spec_resolved_path(self, ev: InboundEvent) -> Seq<char> {
        if ev.pass_through && ev.method@ == "POST"@ {
            self.pass_through_path@
        } else {
            match self.base_path {
                Some(b) => strip_prefix_spec(ev.raw_path@, b@),
                None => ev.raw_path@,
            }
        }
    }

    /// The translated request's URI: the upstream base address, the
    /// resolved path, and the original query string verbatim.
    pub open spec fn spec_uri(self, ev: InboundEvent) -> Seq<char> {
        uri_chars(
            self.host@,
            self.port,
            self.spec_resolved_path(ev),
            match ev.query {
                Some(q) => Some(q@),
                None => None,
            },
        )
    }

    /// Both serialized contexts can stand as header values (trivially so
    /// when context forwarding is off).
    pub open spec fn spec_contexts_ok(self, ev: InboundEvent) -> bool {
        self.forward_context ==> valid_header_value(ev.request_context_json@)
            && valid_header_value(ev.lambda_context_json@)
    }

    /// The tenant-identifier header is skipped: forwarding is on, a tenant
    /// identifier is present, and it cannot stand as a header value.
    pub open spec fn spec_tenant_skipped(self, ev: InboundEvent) -> bool {
        self.forward_context && match ev.tenant_id {
            Some(t) => !valid_header_value(t@),
            None => false,
        }
    }

    /// The event's headers after context injection: the serialized request
    /// and invocation contexts overwrite any client-supplied value of their
    /// trust-boundary header names, and a valid tenant identifier is added
    /// under its own name.
    pub open spec fn spec_context_headers(self, ev: InboundEvent) -> Seq<(Seq<char>, Seq<char>)> {
        if self.forward_context {
            let h1 = insert_hv(hv(ev.headers@), "x-amzn-request-context"@, ev.request_context_json@);
            let h2 = insert_hv(h1, "x-amzn-lambda-context"@, ev.lambda_context_json@);
            match ev.tenant_id {
                Some(t) => if valid_header_value(t@) {
                    insert_hv(h2, "x-amz-tenant-id"@, t@)
                } else {
                    h2
                },
                None => h2,
            }
        } else {
            hv(ev.headers@)
        }
    }

    /// The configured authorization-source header is absent from the
    /// assembled headers; the request then goes on without a rewrite.
    pub open spec fn spec_auth_missing(self, ev: InboundEvent) -> bool {
        match self.authorization_source {
            Some(src) => !has_hv(self.spec_context_headers(ev), src@),
            None => false,
        }
    }

    /// The translated request's headers: after context injection, the
    /// authorization-source header's value (when configured and present)
    /// moves to the standard `authorization` name. Removing an absent name
    /// leaves the list as it was.
    pub open spec fn spec_final_headers(self, ev: InboundEvent) -> Seq<(Seq<char>, Seq<char>)> {
        let hs = self.spec_context_headers(ev);
        match self.authorization_source {
            Some(src) => if has_hv(hs, src@) {
                insert_hv(remove_hv(hs, src@), "authorization"@, hs[find_hv(hs, src@)].1)
            } else {
                hs
            },
            None => hs,
        }
    }

    /// Everything the translation promises of a successful result: the
    /// method is the event's, the URI, headers, body and warning flags are
    /// the spec-level translation of the adapter's configuration and the
    /// event.
    pub open spec fn spec_translated(self, ev: InboundEvent, t: Translation) -> bool {
        &&& t.request.method@ == ev.method@
        &&& t.request.uri@ == self.spec_uri(ev)
        &&& hv(t.request.headers@) == self.spec_final_headers(ev)
        &&& t.request.body@ == body_bytes_spec(ev.body)
        &&& t.auth_source_missing == self.spec_auth_missing(ev)
        &&& t.tenant_id_skipped == self.spec_tenant_skipped(ev)
    }

    /// Translate one inbound event into the upstream request, in order:
    /// path resolution, the pass-through override, context-header
    /// injection, the authorization rewrite, URI construction, and body
    /// materialization. The one failure is a serialized context that
    /// cannot stand as a header value; a missing authorization source and
    /// an invalid tenant identifier only set their warning flags.
    pub fn translate_request(&self, event: InboundEvent) -> (r: Result<Translation, AdapterError>)
        ensures
            r is Ok <==> self.spec_contexts_ok(event),
            r matches Err(e) ==> e == AdapterError::InvalidContextHeader,
            r matches Ok(t) ==> self.spec_translated(event, t),
    {
        let InboundEvent {
            method,
            raw_path,
            query,
            headers,
            body,
            request_context_json,
            lambda_context_json,
            pass_through,
            tenant_id,
        } = event;
        // steps 2 and 3: path resolution and the pass-through override
        let path = if pass_through && str_eq(method.as_str(), "POST") {
            self.pass_through_path.clone()
        } else {
            resolve_path(&self.base_path, &raw_path)
        };
        // step 4: context-header injection
        let mut hs = headers;
        let mut tenant_id_skipped = false;
        if self.forward_context {
            if !is_valid_header_value(request_context_json.as_str()) {
                return Err(AdapterError::InvalidContextHeader);
            }
            if !is_valid_header_value(lambda_context_json.as_str()) {
                return Err(AdapterError::InvalidContextHeader);
            }
            hs = crate::headers::insert_named(hs, "x-amzn-request-context", request_context_json);
            hs = crate::headers::insert_named(hs, "x-amzn-lambda-context", lambda_context_json);
            match &tenant_id {
                Some(t) => {
                    if is_valid_header_value(t.as_str()) {
                        hs = crate::headers::insert_named(hs, "x-amz-tenant-id", t.clone());
                    } else {
                        tenant_id_skipped = true;
                    }
                },
                None => {},
            }
        }
        proof {
            assert(hv(hs@) == self.spec_context_headers(event));
        }
        // step 5: the authorization rewrite
        let mut auth_source_missing = false;
        match &self.authorization_source {
            Some(src) => {
                let (kept, first) = crate::headers::remove_named(hs, src.as_str());
                match first {
                    Some(v) => {
                        hs = crate::headers::insert_named(kept, "authorization", v);
                    },
                    None => {
                        proof {
                            lemma_find_hv(self.spec_context_headers(event), src@);
                            lemma_filter_keeps_all(
                                self.spec_context_headers(event),
                                |p: (Seq<char>, Seq<char>)| !seq_eq_ci(p.0, src@),
                            );
                        }
                        hs = kept;
                        auth_source_missing = true;
                    },
                }
            },
            None => {},
        }
        // step 6: URI construction
        let uri = build_uri(&self.host, self.port, path.as_str(), &query);
        // step 7: body materialization
        let body = body_bytes(body);
        Ok(
            Translation {
                request: OutboundRequest { method, uri, headers: hs, body },
                auth_source_missing,
                tenant_id_skipped,
            },
        )
    }

    /// Apply the error-status policy to an upstream response status: a
    /// status the configuration lists is surfaced as a failure, so that
    /// the platform's retry machinery sees it; any other status passes the
    /// response through.
    pub fn evaluate_response_status(&self, status: u16) -> (r: Result<(), AdapterError>)
        ensures
            r is Err <==> (match self.error_status_codes {
                Some(codes) => codes@.contains(status),
                None => false,
            }),
            r matches Err(e) ==> e == AdapterError::ErrorStatus(status),
    {
        match &self.error_status_codes {
            Some(codes) => {
                if crate::status::status_in_list(codes, status) {
                    Err(AdapterError::ErrorStatus(status))
                } else {
                    Ok(())
                }
            },
            None => Ok(()),
        }
    }
}

/// Translation is idempotent: translating the same event twice against
/// the same adapter (the pool being warm changes nothing the translator
/// reads) produces outbound requests that are identical header for
/// header, and byte for byte in method, URI and body, with the same
/// warning flags — the translation is a function of the adapter's
/// configuration and the event alone.
pub proof fn lemma_translation_deterministic(
    a: Adapter,
    ev: InboundEvent,
    t1: Translation,
    t2: Translation,
)
    requires
        a.spec_translated(ev, t1),
        a.spec_translated(ev, t2),
    ensures
        t1.request.method@ == t2.request.method@,
        t1.request.uri@ == t2.request.uri@,
        hv(t1.request.headers@) == hv(t2.request.headers@),
        t1.request.body@ == t2.request.body@,
        t1.auth_source_missing == t2.auth_source_missing,
        t1.tenant_id_skipped == t2.tenant_id_skipped,
{
}

} // verus!
