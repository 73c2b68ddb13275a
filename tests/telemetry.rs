use std::collections::hash_map::DefaultHasher;
use std::hash::{Hash, Hasher};

use esp32c3_embassy::json::{number_literal, string_literal};
use esp32c3_embassy::telemetry::{
    optional100, optional20, required100, required20, required30, ApiVersion, AppStarted,
    Application, CapacityError, Configuration, ConfigurationOrigin, Host, Payload, Telemetry,
    MAX_CONFIGURATION,
};

fn application() -> Application {
    Application::try_new(
        "embedded-apm",
        Some("0.1.0"),
        Some("embedded"),
        "Rust",
        "1.75",
        "0.1.0",
        None,
        None,
        None,
    )
    .unwrap()
}

fn host() -> Host {
    Host::try_new("esp32c3 - todo", None, None, None, None, None, None).unwrap()
}

fn entry(i: usize) -> Configuration {
    Configuration::try_new(&format!("key{i}"), &format!("value{i}"), ConfigurationOrigin::Code)
        .unwrap()
}

fn hash_of<T: Hash>(t: &T) -> u64 {
    let mut h = DefaultHasher::new();
    t.hash(&mut h);
    h.finish()
}

fn parse(text: &str) -> serde_json::Value {
    serde_json::from_str(text).unwrap()
}

#[test]
fn api_version_text() {
    assert_eq!(ApiVersion::V1.to_str(), "v1");
    assert_eq!(ApiVersion::V2.to_str(), "v2");
}

#[test]
fn bounded_string_fits_exactly() {
    let s = required20(&"abcde".repeat(4)).unwrap();
    assert_eq!(s.as_str(), "abcdeabcdeabcdeabcde");
    let e = required30("").unwrap();
    assert_eq!(e.as_str(), "");
    let h = required100("host").unwrap();
    assert_eq!(h.as_str(), "host");
}

#[test]
fn bounded_string_rejects_overflow() {
    assert_eq!(required20(&"a".repeat(21)).unwrap_err(), CapacityError);
    assert_eq!(required100(&"a".repeat(101)).unwrap_err(), CapacityError);
}

#[test]
fn bounded_string_counts_bytes() {
    // "é" takes two bytes.
    let nineteen = "a".repeat(19);
    assert!(required20(&format!("{nineteen}a")).is_ok());
    assert!(required20(&format!("{nineteen}é")).is_err());
}

#[test]
fn optional_strings() {
    assert!(optional20(None).unwrap().is_none());
    assert_eq!(optional20(Some("v")).unwrap().unwrap().as_str(), "v");
    assert!(optional20(Some(&"v".repeat(21))).is_err());
    assert!(optional100(Some(&"v".repeat(100))).is_ok());
}

#[test]
fn application_capacity() {
    let name20 = "a".repeat(20);
    let name21 = "a".repeat(21);
    assert!(Application::try_new(&name20, None, None, "Rust", "1", "1", None, None, None).is_ok());
    assert!(Application::try_new(&name21, None, None, "Rust", "1", "1", None, None, None).is_err());
    let long = "b".repeat(31);
    assert!(
        Application::try_new("x", None, Some(&long), "Rust", "1", "1", None, None, None).is_err()
    );
    let a = application();
    assert_eq!(a.service_name.as_str(), "embedded-apm");
    assert_eq!(a.env.as_ref().unwrap().as_str(), "embedded");
    assert!(a.runtime_name.is_none());
}

#[test]
fn host_capacity() {
    let h100 = "h".repeat(100);
    let h101 = "h".repeat(101);
    assert!(Host::try_new(&h100, None, None, None, None, None, None).is_ok());
    assert!(Host::try_new(&h101, None, None, None, None, None, None).is_err());
    let k31 = "k".repeat(31);
    assert!(Host::try_new("h", None, None, None, None, Some(&k31), None).is_err());
    assert!(Host::try_new("h", None, None, None, None, None, Some(&"k".repeat(30))).is_ok());
}

#[test]
fn configuration_capacity() {
    let n30 = "n".repeat(30);
    let n31 = "n".repeat(31);
    assert!(Configuration::try_new(&n30, "v", ConfigurationOrigin::EnvVar).is_ok());
    assert!(Configuration::try_new(&n31, "v", ConfigurationOrigin::EnvVar).is_err());
    assert!(Configuration::try_new("n", &n31, ConfigurationOrigin::EnvVar).is_err());
}

#[test]
fn configuration_equality_and_hash() {
    let a = Configuration::try_new("n", "v", ConfigurationOrigin::DdConfig).unwrap();
    let b = Configuration::try_new("n", "v", ConfigurationOrigin::DdConfig).unwrap();
    assert!(a == b);
    assert_eq!(hash_of(&a), hash_of(&b));
    let c = Configuration::try_new("n", "v", ConfigurationOrigin::Code).unwrap();
    assert!(a != c);
    let mut set = std::collections::HashSet::new();
    set.insert(a.clone());
    set.insert(b);
    set.insert(c);
    assert_eq!(set.len(), 2);
}

#[test]
fn configuration_list_boundary() {
    let twenty: Vec<Configuration> = (0..20).map(entry).collect();
    let started = AppStarted::try_new(twenty).unwrap();
    assert_eq!(started.configuration().len(), MAX_CONFIGURATION);
    let twenty_one: Vec<Configuration> = (0..21).map(entry).collect();
    assert!(AppStarted::try_new(twenty_one).is_err());
}

#[test]
fn configuration_push_until_full() {
    let mut started = AppStarted::empty();
    for i in 0..20 {
        assert!(started.push(entry(i)).is_ok());
    }
    let back = started.push(entry(20)).unwrap_err();
    assert!(back == entry(20));
    assert_eq!(started.configuration().len(), 20);
    assert!(started.configuration()[0] == entry(0));
}

#[test]
fn origin_names() {
    assert_eq!(ConfigurationOrigin::EnvVar.to_str(), "EnvVar");
    assert_eq!(ConfigurationOrigin::Code.to_str(), "Code");
    assert_eq!(ConfigurationOrigin::DdConfig.to_str(), "DdConfig");
    assert_eq!(ConfigurationOrigin::RemoteConfig.to_str(), "RemoteConfig");
    assert_eq!(ConfigurationOrigin::Default.to_str(), "Default");
}

#[test]
fn string_escapes() {
    assert_eq!(string_literal("a\"b\\c"), "\"a\\\"b\\\\c\"");
    assert_eq!(string_literal("\n\r\t\u{8}\u{c}"), "\"\\n\\r\\t\\b\\f\"");
    assert_eq!(string_literal("\u{1}\u{1f}"), "\"\\u0001\\u001f\"");
    assert_eq!(string_literal("é"), "\"é\"");
    assert_eq!(string_literal(""), "\"\"");
}

#[test]
fn numbers() {
    assert_eq!(number_literal(0), "0");
    assert_eq!(number_literal(1700000000), "1700000000");
    assert_eq!(number_literal(u64::MAX), "18446744073709551615");
}

#[test]
fn end_to_end_start_event() {
    let app = application();
    let host = host();
    let payload = Payload::AppStarted(AppStarted::empty());
    let t = Telemetry::new(ApiVersion::V2, 1700000000, 1, "todo", &app, &host, &payload);
    let text = t.serialize();
    assert_eq!(
        text,
        "{\"api_version\":\"v2\",\"tracer_time\":1700000000,\"runtime_id\":\"todo\",\"seq_id\":1,\
         \"application\":{\"service_name\":\"embedded-apm\",\"service_version\":\"0.1.0\",\
         \"env\":\"embedded\",\"language_name\":\"Rust\",\"language_version\":\"1.75\",\
         \"tracer_version\":\"0.1.0\"},\"host\":{\"hostname\":\"esp32c3 - todo\"},\
         \"request_type\":\"app-started\",\"payload\":{\"configuration\":[]}}"
    );
    let v = parse(&text);
    let obj = v.as_object().unwrap();
    let keys: Vec<&str> = obj.keys().map(|k| k.as_str()).collect();
    let mut expected = vec![
        "api_version",
        "tracer_time",
        "runtime_id",
        "seq_id",
        "application",
        "host",
        "request_type",
        "payload",
    ];
    expected.sort();
    let mut sorted = keys.clone();
    sorted.sort();
    assert_eq!(sorted, expected);
    assert_eq!(obj["api_version"].as_str(), Some("v2"));
    assert_eq!(obj["seq_id"].as_u64(), Some(1));
    assert_eq!(obj["application"].as_object().unwrap().len(), 6);
    assert_eq!(obj["host"].as_object().unwrap().len(), 1);
    assert_eq!(obj["payload"]["configuration"].as_array().unwrap().len(), 0);
}

#[test]
fn heartbeat_omits_payload() {
    let app = application();
    let host = host();
    let payload = Payload::AppHeartbeat;
    let t = Telemetry::new(ApiVersion::V1, 5, 2, "r", &app, &host, &payload);
    let v = parse(&t.serialize());
    let obj = v.as_object().unwrap();
    assert!(!obj.contains_key("payload"));
    assert_eq!(obj["request_type"].as_str(), Some("app-heartbeat"));
    assert_eq!(obj["api_version"].as_str(), Some("v1"));
}

#[test]
fn start_event_lists_entries_in_order() {
    let app = application();
    let host = host();
    let mut started = AppStarted::empty();
    started.push(Configuration::try_new("b", "2", ConfigurationOrigin::RemoteConfig).unwrap()).unwrap();
    started.push(Configuration::try_new("a", "1", ConfigurationOrigin::Default).unwrap()).unwrap();
    let payload = Payload::AppStarted(started);
    let t = Telemetry::new(ApiVersion::V2, 7, 3, "r", &app, &host, &payload);
    let text = t.serialize();
    assert!(text.ends_with(
        "\"request_type\":\"app-started\",\"payload\":{\"configuration\":[\
         {\"name\":\"b\",\"value\":\"2\",\"origin\":\"RemoteConfig\"},\
         {\"name\":\"a\",\"value\":\"1\",\"origin\":\"Default\"}]}}"
    ));
    let v = parse(&text);
    let list = v["payload"]["configuration"].as_array().unwrap();
    assert_eq!(list.len(), 2);
    assert_eq!(list[0]["name"].as_str(), Some("b"));
    assert_eq!(list[1]["origin"].as_str(), Some("Default"));
}

#[test]
fn serialization_is_stable_and_escaped() {
    let app = Application::try_new("q\"uote", None, None, "Rust", "1", "1", Some("rt"), None, None)
        .unwrap();
    let host = Host::try_new("line\nbreak", None, Some("os"), None, None, None, None).unwrap();
    let payload = Payload::AppHeartbeat;
    let t = Telemetry::new(ApiVersion::V2, 0, 0, "id", &app, &host, &payload);
    let first = t.serialize();
    assert_eq!(first, t.serialize());
    let v = parse(&first);
    assert_eq!(v["application"]["service_name"].as_str(), Some("q\"uote"));
    assert_eq!(v["application"]["runtime_name"].as_str(), Some("rt"));
    assert_eq!(v["host"]["hostname"].as_str(), Some("line\nbreak"));
    assert_eq!(v["host"]["os"].as_str(), Some("os"));
}
