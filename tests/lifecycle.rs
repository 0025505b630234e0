use trace_pipeline::config::{PipelinePlan, SamplingPolicy, TraceConfiguration};
use trace_pipeline::endpoint::ExporterEndpoint;
use trace_pipeline::lifecycle::{FlushSummary, LifecycleError, PipelineLifecycle};
use opentelemetry::Key;
use trace_pipeline::resource::detect_all;

#[test]
fn start_succeeds_once() {
    let mut p = PipelineLifecycle::new(1);
    assert!(!p.is_running());
    assert_eq!(p.start(), Ok(()));
    assert!(p.is_running());
    assert_eq!(p.start(), Err(LifecycleError::AlreadyStarted));
}

#[test]
fn span_refused_before_start() {
    let mut p = PipelineLifecycle::new(1);
    assert!(matches!(p.open_span(), Err(LifecycleError::NotRunning)));
}

#[test]
fn spans_get_fresh_ids() {
    let mut p = PipelineLifecycle::new(1);
    p.start().unwrap();
    let a = p.open_span().unwrap();
    let b = p.open_span().unwrap();
    assert_eq!(a.id(), 0);
    assert_eq!(b.id(), 1);
    assert_eq!(p.close_span(b), Ok(()));
    assert_eq!(p.close_span(a), Ok(()));
}

#[test]
fn span_of_another_pipeline_is_not_open() {
    let mut p = PipelineLifecycle::new(1);
    let mut q = PipelineLifecycle::new(2);
    p.start().unwrap();
    q.start().unwrap();
    let s = p.open_span().unwrap();
    let t = q.open_span().unwrap();
    assert_eq!(s.id(), t.id());
    assert_eq!(q.record_event(&s), Err(LifecycleError::SpanNotOpen));
    assert_eq!(q.close_span(s), Err(LifecycleError::SpanNotOpen));
    assert_eq!(q.close_span(t), Ok(()));
    assert_eq!(q.shutdown(), Ok(FlushSummary { spans: 1, events: 0 }));
    assert_eq!(p.shutdown(), Err(LifecycleError::SpansStillOpen));
}

#[test]
fn shutdown_refused_while_span_open() {
    let mut p = PipelineLifecycle::new(1);
    p.start().unwrap();
    let s = p.open_span().unwrap();
    assert_eq!(p.shutdown(), Err(LifecycleError::SpansStillOpen));
    assert_eq!(p.close_span(s), Ok(()));
    assert_eq!(p.shutdown(), Ok(FlushSummary { spans: 1, events: 0 }));
}

#[test]
fn shutdown_succeeds_once() {
    let mut p = PipelineLifecycle::new(1);
    assert_eq!(p.shutdown(), Err(LifecycleError::NotRunning));
    p.start().unwrap();
    assert_eq!(p.shutdown(), Ok(FlushSummary { spans: 0, events: 0 }));
    assert_eq!(p.shutdown(), Err(LifecycleError::AlreadyStopped));
    assert_eq!(p.start(), Err(LifecycleError::AlreadyStopped));
    assert!(matches!(p.open_span(), Err(LifecycleError::NotRunning)));
}

#[test]
fn shutdown_flushes_every_closed_span() {
    let mut p = PipelineLifecycle::new(1);
    p.start().unwrap();
    for _ in 0..3 {
        let s = p.open_span().unwrap();
        p.record_event(&s).unwrap();
        p.close_span(s).unwrap();
    }
    assert_eq!(p.shutdown(), Ok(FlushSummary { spans: 3, events: 3 }));
}

#[test]
fn end_to_end_one_span_two_events() {
    let endpoint = ExporterEndpoint::from_configured(None, false);
    assert_eq!(endpoint.url(), "http://localhost:4317");
    let config = TraceConfiguration::new(SamplingPolicy::AlwaysOn, detect_all(0)).unwrap();
    let plan = PipelinePlan::new(config, endpoint);
    assert_eq!(plan.endpoint.timeout_ms(), 3000);
    let name = plan.config.resource().get(Key::new("telemetry.sdk.name"));
    assert_eq!(name.map(|v| v.as_str().into_owned()), Some("opentelemetry".to_string()));
    let mut p = PipelineLifecycle::new(1);
    p.start().unwrap();
    let root = p.open_span().unwrap();
    assert_eq!(p.record_event(&root), Ok(()));
    assert_eq!(p.record_event(&root), Ok(()));
    assert_eq!(p.close_span(root), Ok(()));
    assert_eq!(p.shutdown(), Ok(FlushSummary { spans: 1, events: 2 }));
}
