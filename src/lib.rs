//! Composition layer that prepares an OpenTelemetry trace pipeline: it merges
//! detected resource attributes in a fixed order, resolves the exporter
//! endpoint, holds the sampling configuration, and tracks the lifecycle of the
//! pipeline and of the spans opened through it.
use vstd::prelude::*;

pub mod config;
pub mod endpoint;
pub mod resource;
pub mod lifecycle;

verus! {

} // verus!
