use opentelemetry::sdk::Resource;
use opentelemetry::{Key, KeyValue, Value};
use trace_pipeline::resource::{detect_all, merge_in_order, DetectedResources};

fn attribute_text(r: &Resource, key: &str) -> Option<String> {
    r.get(Key::new(key.to_string())).map(|v| v.as_str().into_owned())
}

fn pairs(kvs: &[(&str, &str)]) -> Resource {
    Resource::new(kvs.iter().map(|(k, v)| KeyValue::new(k.to_string(), v.to_string())))
}

#[test]
fn later_source_wins_on_shared_key() {
    let first = pairs(&[("service.name", "first"), ("os.type", "linux")]);
    let second = pairs(&[("service.name", "second"), ("process.pid", "42")]);
    let merged = merge_in_order(&vec![first, second]);
    assert_eq!(merged.get(Key::new("service.name")), Some(Value::from("second")));
    assert_eq!(merged.get(Key::new("os.type")), Some(Value::from("linux")));
    assert_eq!(merged.get(Key::new("process.pid")), Some(Value::from("42")));
    assert_eq!(merged.len(), 3);
}

#[test]
fn later_empty_value_still_wins() {
    let first = pairs(&[("k", "a")]);
    let second = pairs(&[("k", "")]);
    let merged = merge_in_order(&vec![first, second]);
    assert_eq!(attribute_text(&merged, "k"), Some(String::new()));
}

#[test]
fn merge_of_nothing_is_empty() {
    let merged = merge_in_order(&Vec::new());
    assert!(merged.is_empty());
}

#[test]
fn detected_sources_merge_in_fixed_order() {
    let d = DetectedResources {
        os: pairs(&[("k", "os"), ("os.type", "linux")]),
        process: pairs(&[("k", "process")]),
        sdk: pairs(&[("k", "sdk"), ("service.name", "svc")]),
        env: pairs(&[("k", "env")]),
        telemetry: pairs(&[("t", "tel")]),
    };
    let merged = d.into_merged();
    assert_eq!(attribute_text(&merged, "k"), Some("env".to_string()));
    assert_eq!(attribute_text(&merged, "os.type"), Some("linux".to_string()));
    assert_eq!(attribute_text(&merged, "service.name"), Some("svc".to_string()));
    assert_eq!(attribute_text(&merged, "t"), Some("tel".to_string()));
    assert_eq!(merged.len(), 4);
}

#[test]
fn telemetry_identity_names_the_library() {
    let r = DetectedResources::detect(0).telemetry;
    assert_eq!(attribute_text(&r, "telemetry.sdk.name"), Some("opentelemetry".to_string()));
    assert_eq!(attribute_text(&r, "telemetry.sdk.language"), Some("rust".to_string()));
    assert_eq!(attribute_text(&r, "telemetry.sdk.version"), Some("0.20.0".to_string()));
    assert_eq!(r.len(), 3);
}

#[test]
fn detect_all_keeps_telemetry_identity() {
    let r = detect_all(0);
    assert_eq!(attribute_text(&r, "telemetry.sdk.name"), Some("opentelemetry".to_string()));
    assert_eq!(attribute_text(&r, "telemetry.sdk.language"), Some("rust".to_string()));
    assert!(attribute_text(&r, "service.name").is_some());
}

#[test]
fn attribute_text_renders_non_string_values() {
    let r = Resource::new(vec![KeyValue::new("process.pid", 42i64), KeyValue::new("flag", true)]);
    assert_eq!(attribute_text(&r, "process.pid"), Some("42".to_string()));
    assert_eq!(attribute_text(&r, "flag"), Some("true".to_string()));
}

#[test]
fn detectors_report_their_keys() {
    let d = DetectedResources::detect(0);
    assert_eq!(d.os.len(), 1);
    assert!(attribute_text(&d.os, "os.type").is_some());
    assert_eq!(d.process.len(), 2);
    assert!(attribute_text(&d.process, "process.pid").is_some());
    assert!(attribute_text(&d.process, "process.command_args").is_some());
    assert_eq!(d.sdk.len(), 1);
    assert!(attribute_text(&d.sdk, "service.name").is_some());
    let merged = d.into_merged();
    for key in ["os.type", "process.pid", "process.command_args", "service.name", "telemetry.sdk.name"] {
        assert!(attribute_text(&merged, key).is_some());
    }
}
