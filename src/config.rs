//! Trace configuration: the sampling policy and the resource, and the plan
//! from which the export pipeline is installed.
use vstd::prelude::*;
use opentelemetry::sdk::Resource;
use crate::endpoint::ExporterEndpoint;

verus! {

/// Denominator of a sampling ratio: a ratio is given in parts per million.
pub const RATIO_SCALE: u32 = 1_000_000;

/// Name under which the tracer of this pipeline is registered.
pub const INSTRUMENTATION_NAME: &'static str = "trace_pipeline";

/// Version under which the tracer of this pipeline is registered.
pub const INSTRUMENTATION_VERSION: &'static str = "0.1.0";

/// Schema of the semantic conventions that the attributes follow.
pub const SCHEMA_URL: &'static str = "https://opentelemetry.io/schemas/1.9.0";

/// Errors surfaced while building the pipeline; each is fatal to startup.
#[derive(Debug, Clone)]
pub enum PipelineError {
    /// The exporter's request timeout is zero.
    InvalidTimeout,
    /// A sampling ratio above one.
    InvalidRatio,
    /// The exporter or the propagator could not be installed; the text says why.
    Install(String),
}

/// Which spans are recorded and exported.
#[derive(PartialEq, Eq, Structural, Clone, Copy, Debug)]
pub enum SamplingPolicy {
    AlwaysOn,
    AlwaysOff,
    /// A share of the traces, in parts per million.
    RatioBased { per_million: u32 },
    /// Follow the parent span's decision; root spans are sampled.
    ParentBased,
}

impl SamplingPolicy {
    pub open spec fn is_valid(&self) -> bool {
        match *self {
            SamplingPolicy::RatioBased { per_million } => per_million <= RATIO_SCALE,
            _ => true,
        }
    }

    /// Whether the policy is well-formed: a ratio is at most one.
    pub fn check(&self) -> (r: bool)
        ensures
            r == self.is_valid(),
    {
        match *self {
            SamplingPolicy::RatioBased { per_million } => per_million <= RATIO_SCALE,
            _ => true,
        }
    }
}

/// Sampling policy and resource of the tracer; fixed once built.
pub struct TraceConfiguration {
    sampler: SamplingPolicy,
    resource: Resource,
}

impl TraceConfiguration {
    pub closed spec fn spec_sampler(&self) -> SamplingPolicy {
        self.sampler
    }

    pub closed spec fn spec_resource(&self) -> Resource {
        self.resource
    }

    #[verifier::type_invariant]
    closed spec fn inv(&self) -> bool {
        self.sampler.is_valid()
    }

    /// A configuration of one sampling policy and one resource; a ratio above
    /// one is refused.
    pub fn new(sampler: SamplingPolicy, resource: Resource) -> (r: Result<Self, PipelineError>)
        ensures
            r is Ok <==> sampler.is_valid(),
            match r {
                Ok(c) => c.spec_sampler() == sampler && c.spec_resource() == resource,
                Err(e) => e is InvalidRatio,
            },
    {
        if sampler.check() {
            Ok(TraceConfiguration { sampler, resource })
        } else {
            Err(PipelineError::InvalidRatio)
        }
    }

    pub fn sampler(&self) -> (r: SamplingPolicy)
        ensures
            r == self.spec_sampler(),
            r.is_valid(),
    {
        proof {
            use_type_invariant(self);
        }
        self.sampler
    }

    pub fn resource(&self) -> (r: &Resource)
        ensures
            *r == self.spec_resource(),
    {
        &self.resource
    }

    pub fn into_resource(self) -> (r: Resource)
        ensures
            r == self.spec_resource(),
    {
        self.resource
    }
}

/// Everything the pipeline is installed from: the trace configuration, the
/// exporter endpoint, and the identity of the tracer it hands out.
pub struct PipelinePlan {
    pub config: TraceConfiguration,
    pub endpoint: ExporterEndpoint,
    pub library_name: String,
    pub library_version: String,
    pub schema_url: String,
}

impl PipelinePlan {
    /// Combines a configuration and an endpoint with the tracer's identity.
    pub fn new(config: TraceConfiguration, endpoint: ExporterEndpoint) -> (r: Self)
        ensures
            r.config == config,
            r.endpoint == endpoint,
            r.library_name@ == INSTRUMENTATION_NAME@,
            r.library_version@ == INSTRUMENTATION_VERSION@,
            r.schema_url@ == SCHEMA_URL@,
    {
        PipelinePlan {
            config,
            endpoint,
            library_name: String::from_str(INSTRUMENTATION_NAME),
            library_version: String::from_str(INSTRUMENTATION_VERSION),
            schema_url: String::from_str(SCHEMA_URL),
        }
    }
}

} // verus!
