//! Resource attributes: the detectors, and their merge in a fixed order in
//! which a later source's value for a key replaces an earlier one.
use vstd::prelude::*;
use opentelemetry::sdk::resource::{
    EnvResourceDetector, OsResourceDetector, ProcessResourceDetector, ResourceDetector,
    SdkProvidedResourceDetector, TelemetryResourceDetector,
};
use opentelemetry::sdk::Resource;
use std::time::Duration;

verus! {

#[verifier::external_type_specification]
#[verifier::external_body]
pub struct ExResource(Resource);

/// The attributes that a resource holds: each key, in its text form, mapped
/// to the text form of its value (what `Value::as_str` gives).
pub uninterp spec fn resource_attrs(r: Resource) -> Map<Seq<char>, Seq<char>>;

/// The attributes of each resource of a sequence, in the same order.
pub open spec fn attrs_of(rs: Seq<Resource>) -> Seq<Map<Seq<char>, Seq<char>>> {
    rs.map_values(|r: Resource| resource_attrs(r))
}

/// Left-to-right merge of attribute maps: for a key held by several maps, the
/// value of the last one that holds it is kept.
pub open spec fn merged_attrs(parts: Seq<Map<Seq<char>, Seq<char>>>) -> Map<Seq<char>, Seq<char>>
    decreases parts.len(),
{
    if parts.len() == 0 {
        Map::empty()
    } else {
        merged_attrs(parts.drop_last()).union_prefer_right(parts.last())
    }
}

/// Relies on `Resource::empty`: a resource without attributes.
#[verifier::external_body]
fn empty_resource() -> (r: Resource)
    ensures
        forall|k: Seq<char>| !resource_attrs(r).contains_key(k),
{
    Resource::empty()
}

/// Relies on `Resource::merge`: the keys of `later` take priority over those
/// of `earlier`, even where the later value is empty.
#[verifier::external_body]
fn merge_resources(earlier: &Resource, later: &Resource) -> (r: Resource)
    ensures
        resource_attrs(r) == resource_attrs(*earlier).union_prefer_right(resource_attrs(*later)),
{
    earlier.merge(later)
}

/// Relies on `OsResourceDetector::detect`: the operating system's type, under
/// `os.type`; its value depends on the host.
#[verifier::external_body]
fn detect_os(timeout_secs: u64) -> (r: Resource)
    ensures
        resource_attrs(r).dom() == set!["os.type"@],
{
    OsResourceDetector.detect(Duration::from_secs(timeout_secs))
}

/// Relies on `ProcessResourceDetector::detect`: the running process's
/// arguments and identifier, under `process.command_args` and `process.pid`.
#[verifier::external_body]
fn detect_process(timeout_secs: u64) -> (r: Resource)
    ensures
        resource_attrs(r).dom() == set!["process.command_args"@, "process.pid"@],
{
    ProcessResourceDetector.detect(Duration::from_secs(timeout_secs))
}

/// Relies on `SdkProvidedResourceDetector::detect`: the service name, under
/// `service.name`, read from the environment, else `unknown_service`.
#[verifier::external_body]
fn detect_sdk(timeout_secs: u64) -> (r: Resource)
    ensures
        resource_attrs(r).dom() == set!["service.name"@],
{
    SdkProvidedResourceDetector.detect(Duration::from_secs(timeout_secs))
}

/// Relies on `EnvResourceDetector::detect`: attributes given in the
/// environment's resource-attribute variable.
#[verifier::external_body]
fn detect_env(timeout_secs: u64) -> (r: Resource) {
    EnvResourceDetector::new().detect(Duration::from_secs(timeout_secs))
}

/// Merges the resources from first to last: for a key that several of them
/// hold, the value of the last one that holds it is kept.
pub fn merge_in_order(parts: &Vec<Resource>) -> (r: Resource)
    ensures
        resource_attrs(r) == merged_attrs(attrs_of(parts@)),
{
    let ghost views = attrs_of(parts@);
    let mut acc = empty_resource();
    let mut i: usize = 0;
    proof {
        assert(views.take(0) =~= Seq::<Map<Seq<char>, Seq<char>>>::empty());
        assert(resource_attrs(acc) =~= merged_attrs(views.take(0)));
    }
    while i < parts.len()
        invariant
            i <= parts.len(),
            views == attrs_of(parts@),
            resource_attrs(acc) == merged_attrs(views.take(i as int)),
        decreases parts.len() - i,
    {
        acc = merge_resources(&acc, &parts[i]);
        proof {
            assert(views.take(i + 1).drop_last() =~= views.take(i as int));
        }
        i = i + 1;
    }
    proof {
        assert(views.take(parts.len() as int) =~= views);
    }
    acc
}

/// A key that a part holds, and that no later part holds, has that part's
/// value in the merge: the last write wins.
pub proof fn lemma_last_write_wins(parts: Seq<Map<Seq<char>, Seq<char>>>, i: int, k: Seq<char>)
    requires
        0 <= i < parts.len(),
        parts[i].contains_key(k),
        forall|j: int| i < j < parts.len() ==> !(#[trigger] parts[j]).contains_key(k),
    ensures
        merged_attrs(parts).contains_key(k),
        merged_attrs(parts)[k] == parts[i][k],
    decreases parts.len(),
{
    if i < parts.len() - 1 {
        let init = parts.drop_last();
        assert(!parts[parts.len() - 1].contains_key(k));
        assert forall|j: int| i < j < init.len() implies !(#[trigger] init[j]).contains_key(k) by {
            assert(init[j] == parts[j]);
        }
        lemma_last_write_wins(init, i, k);
    }
}

/// A key is in the merge exactly when some part holds it.
pub proof fn lemma_merged_keys(parts: Seq<Map<Seq<char>, Seq<char>>>, k: Seq<char>)
    ensures
        merged_attrs(parts).contains_key(k) <==> exists|j: int|
            0 <= j < parts.len() && (#[trigger] parts[j]).contains_key(k),
    decreases parts.len(),
{
    if parts.len() > 0 {
        let init = parts.drop_last();
        lemma_merged_keys(init, k);
        if merged_attrs(init).contains_key(k) {
            let j = choose|j: int| 0 <= j < init.len() && (#[trigger] init[j]).contains_key(k);
            assert(parts[j] == init[j]);
        }
        if exists|j: int| 0 <= j < parts.len() && (#[trigger] parts[j]).contains_key(k) {
            let j = choose|j: int| 0 <= j < parts.len() && (#[trigger] parts[j]).contains_key(k);
            if j < parts.len() - 1 {
                assert(init[j] == parts[j]);
            }
        }
    }
}

/// Identity of the telemetry SDK, as attributes.
pub open spec fn telemetry_identity_attrs() -> Map<Seq<char>, Seq<char>> {
    map![
        "telemetry.sdk.name"@ => "opentelemetry"@,
        "telemetry.sdk.language"@ => "rust"@,
        "telemetry.sdk.version"@ => "0.20.0"@,
    ]
}

/// Relies on `TelemetryResourceDetector::detect`: the SDK's name, language
/// and version, fixed by the SDK itself.
#[verifier::external_body]
fn detect_telemetry(timeout_secs: u64) -> (r: Resource)
    ensures
        resource_attrs(r) == telemetry_identity_attrs(),
{
    TelemetryResourceDetector.detect(Duration::from_secs(timeout_secs))
}

/// What each of the five sources found.
pub struct DetectedResources {
    pub os: Resource,
    pub process: Resource,
    pub sdk: Resource,
    pub env: Resource,
    pub telemetry: Resource,
}

impl DetectedResources {
    /// The sources' attributes in merge order: operating system, process, SDK,
    /// environment, telemetry library.
    pub open spec fn in_order(&self) -> Seq<Map<Seq<char>, Seq<char>>> {
        seq![
            resource_attrs(self.os),
            resource_attrs(self.process),
            resource_attrs(self.sdk),
            resource_attrs(self.env),
            resource_attrs(self.telemetry),
        ]
    }

    /// The keys that each detector always reports, and the telemetry
    /// library's identity in full.
    pub open spec fn has_detected_keys(&self) -> bool {
        &&& resource_attrs(self.os).dom() == set!["os.type"@]
        &&& resource_attrs(self.process).dom() == set!["process.command_args"@, "process.pid"@]
        &&& resource_attrs(self.sdk).dom() == set!["service.name"@]
        &&& resource_attrs(self.telemetry) == telemetry_identity_attrs()
    }

    /// Runs the five detectors, each bounded by `timeout_secs` seconds.
    pub fn detect(timeout_secs: u64) -> (d: DetectedResources)
        ensures
            d.has_detected_keys(),
    {
        DetectedResources {
            os: detect_os(timeout_secs),
            process: detect_process(timeout_secs),
            sdk: detect_sdk(timeout_secs),
            env: detect_env(timeout_secs),
            telemetry: detect_telemetry(timeout_secs),
        }
    }

    /// Merges the five sources in order; a later source's value for a key
    /// replaces an earlier one.
    pub fn into_merged(self) -> (r: Resource)
        ensures
            resource_attrs(r) == merged_attrs(self.in_order()),
    {
        let ghost order = self.in_order();
        let mut parts: Vec<Resource> = Vec::new();
        parts.push(self.os);
        parts.push(self.process);
        parts.push(self.sdk);
        parts.push(self.env);
        parts.push(self.telemetry);
        proof {
            assert(attrs_of(parts@) =~= order);
        }
        merge_in_order(&parts)
    }
}

/// Detects and merges the resource of this process. Whatever the detectors
/// found, the telemetry library's identity comes last and so is kept whole.
pub fn detect_all(timeout_secs: u64) -> (r: Resource)
    ensures
        exists|d: DetectedResources|
            d.has_detected_keys() && resource_attrs(r) == merged_attrs(#[trigger] d.in_order()),
        resource_attrs(r).contains_key("os.type"@),
        resource_attrs(r).contains_key("process.pid"@),
        resource_attrs(r).contains_key("process.command_args"@),
        resource_attrs(r).contains_key("service.name"@),
        forall|k: Seq<char>|
            #[trigger] telemetry_identity_attrs().contains_key(k) ==> resource_attrs(r).contains_key(k)
                && resource_attrs(r)[k] == telemetry_identity_attrs()[k],
{
    let d = DetectedResources::detect(timeout_secs);
    let ghost order = d.in_order();
    let r = d.into_merged();
    proof {
        assert forall|k: Seq<char>|
            #[trigger] telemetry_identity_attrs().contains_key(k) implies resource_attrs(r).contains_key(k)
                && resource_attrs(r)[k] == telemetry_identity_attrs()[k] by {
            lemma_last_write_wins(order, 4, k);
        }
        lemma_merged_keys(order, "os.type"@);
        assert(order[0].contains_key("os.type"@));
        lemma_merged_keys(order, "process.pid"@);
        assert(order[1].contains_key("process.pid"@));
        lemma_merged_keys(order, "process.command_args"@);
        assert(order[1].contains_key("process.command_args"@));
        lemma_merged_keys(order, "service.name"@);
        assert(order[2].contains_key("service.name"@));
    }
    r
}

} // verus!
