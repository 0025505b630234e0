//! Exporter endpoint resolution and the exporter's settings.
use vstd::prelude::*;
use vstd::string::*;
use crate::config::PipelineError;

verus! {

/// Collector endpoint used when none is configured.
pub const DEFAULT_ENDPOINT: &'static str = "http://localhost:4317";

/// Path appended to a base endpoint for the traces-specific export target.
pub const TRACES_PATH: &'static str = "/v1/traces";

/// Request timeout of the exporter, in milliseconds, when none is given.
pub const DEFAULT_TIMEOUT_MS: u64 = 3000;

pub open spec fn default_endpoint_text() -> Seq<char> {
    seq!['h', 't', 't', 'p', ':', '/', '/', 'l', 'o', 'c', 'a', 'l', 'h', 'o', 's', 't', ':', '4', '3', '1', '7']
}

pub open spec fn traces_path_text() -> Seq<char> {
    seq!['/', 'v', '1', '/', 't', 'r', 'a', 'c', 'e', 's']
}

/// The export target for a configured base endpoint: the default when none is
/// configured, otherwise the base, followed by the traces path when the
/// traces-specific form is asked for.
pub open spec fn resolved_endpoint(configured: Option<Seq<char>>, traces_path: bool) -> Seq<char> {
    match configured {
        None => default_endpoint_text(),
        Some(base) => if traces_path {
            base + traces_path_text()
        } else {
            base
        },
    }
}

pub open spec fn opt_view(o: Option<String>) -> Option<Seq<char>> {
    match o {
        Some(s) => Some(s@),
        None => None,
    }
}

/// Resolves the export target from the configured base endpoint (the value of
/// the endpoint variable, if it is set).
pub fn resolve_endpoint(configured: Option<String>, traces_path: bool) -> (r: String)
    ensures
        r@ == resolved_endpoint(opt_view(configured), traces_path),
{
    proof {
        reveal_strlit("http://localhost:4317");
        reveal_strlit("/v1/traces");
    }
    match configured {
        None => {
            let r = String::from_str(DEFAULT_ENDPOINT);
            assert(r@ =~= default_endpoint_text());
            r
        },
        Some(base) => {
            if traces_path {
                let r = base.concat(TRACES_PATH);
                assert(r@ =~= base@ + traces_path_text());
                r
            } else {
                base
            }
        },
    }
}

/// Where spans are exported to, and how long one export request may take.
pub struct ExporterEndpoint {
    url: String,
    timeout_ms: u64,
}

impl ExporterEndpoint {
    pub closed spec fn spec_url(&self) -> Seq<char> {
        self.url@
    }

    pub closed spec fn spec_timeout_ms(&self) -> u64 {
        self.timeout_ms
    }

    #[verifier::type_invariant]
    closed spec fn inv(&self) -> bool {
        self.timeout_ms > 0
    }

    /// An endpoint with the given request timeout, in milliseconds; a zero
    /// timeout is refused, so that an export never blocks without bound.
    pub fn new(url: String, timeout_ms: u64) -> (r: Result<Self, PipelineError>)
        ensures
            r is Ok <==> timeout_ms > 0,
            match r {
                Ok(e) => e.spec_url() == url@ && e.spec_timeout_ms() == timeout_ms,
                Err(e) => e is InvalidTimeout,
            },
    {
        if timeout_ms == 0 {
            Err(PipelineError::InvalidTimeout)
        } else {
            Ok(ExporterEndpoint { url, timeout_ms })
        }
    }

    /// The endpoint resolved from the configured base endpoint, with the
    /// default request timeout.
    pub fn from_configured(configured: Option<String>, traces_path: bool) -> (r: Self)
        ensures
            r.spec_url() == resolved_endpoint(opt_view(configured), traces_path),
            r.spec_timeout_ms() == DEFAULT_TIMEOUT_MS,
    {
        ExporterEndpoint { url: resolve_endpoint(configured, traces_path), timeout_ms: DEFAULT_TIMEOUT_MS }
    }

    pub fn url(&self) -> (r: &str)
        ensures
            r@ == self.spec_url(),
    {
        self.url.as_str()
    }

    pub fn timeout_ms(&self) -> (r: u64)
        ensures
            r == self.spec_timeout_ms(),
            r > 0,
    {
        proof {
            use_type_invariant(self);
        }
        self.timeout_ms
    }
}

} // verus!
