use republisher::config::{AppConfig, MqttConfig, PayloadFormat};
use republisher::json::Json;
use republisher::model::{
    BrowseKind, Capabilities, DiscoveredDevice, DiscoveredPoint, DiscoveryKind, FieldKind,
    FieldSpec, LogLevel, PointConfig, PointFacts, PointIdentity, PointSample, PointStatus,
    PointValue, RepublisherLifecycle, Value,
};
use republisher::table::Table;
use republisher::web::state::{
    level_str, push_log, save_step, write_outcome, AfterEvent, SampleReport, SaveOutcome, SaveStep,
    StatusUpdate, WebState, WorkerEvent,
    LOG_CAPACITY, RECENT_SAMPLE_CAPACITY,
};

fn mqtt() -> MqttConfig {
    MqttConfig {
        host: "localhost".to_string(),
        port: 8883,
        use_tls: true,
        client_id: "republisher".to_string(),
        topic_prefix: "netix".to_string(),
        health_topic: "netix/health".to_string(),
        username: None,
        password: Some("stored".to_string()),
        password_env: Some("VAR".to_string()),
        ca_cert_path: None,
        client_cert_path: None,
        client_key_path: None,
        client_key_passphrase: None,
        remember_secrets: true,
        retain: false,
        keep_alive_secs: 30,
        payload_format: PayloadFormat::Scalar,
        device_topic_prefix: "devices".to_string(),
        autostart: false,
    }
}

fn config() -> AppConfig {
    AppConfig {
        protocol: "bacnet".to_string(),
        mqtt: mqtt(),
        connections: Table::new(),
        points: Vec::new(),
        discover_on_start: false,
        theme: "dark".to_string(),
    }
}

fn value(v: &Value) -> serde_json::Value {
    match v {
        Value::Null => serde_json::Value::Null,
        Value::Bool(b) => serde_json::Value::Bool(*b),
        Value::Text(s) => serde_json::Value::String(s.clone()),
        Value::Number(s) | Value::Nested(s) => serde_json::from_str(s).unwrap(),
    }
}

/// The document as text, with the members of objects in order of their names. Of a configuration
/// only the secrets are shown.
fn js(j: &Json) -> serde_json::Value {
    match j {
        Json::Null => serde_json::Value::Null,
        Json::Bool(b) => serde_json::Value::Bool(*b),
        Json::Uint(n) => serde_json::Value::from(*n),
        Json::Int(n) => serde_json::Value::from(*n),
        Json::Text(s) => serde_json::Value::String(s.clone()),
        Json::Value(v) => value(v),
        Json::List(items) => serde_json::Value::Array(items.iter().map(js).collect()),
        Json::Object(fields) => {
            serde_json::Value::Object(fields.iter().map(|(k, v)| (k.clone(), js(v))).collect())
        }
        Json::Config(c) => serde_json::Value::String(format!(
            "{} {:?} {:?}",
            c.protocol, c.mqtt.password, c.mqtt.client_key_passphrase
        )),
    }
}

fn shown(j: &Json) -> String {
    js(j).to_string()
}

fn sent(state: &WebState) -> Vec<String> {
    state.events.iter().map(shown).collect()
}

fn field(key: &str, kind: FieldKind) -> FieldSpec {
    FieldSpec { key: key.to_string(), label: key.to_uppercase(), kind, default: None, help: None }
}

fn caps(id: &str) -> Capabilities {
    Capabilities {
        id: id.to_string(),
        display_name: id.to_uppercase(),
        discovery: DiscoveryKind::Broadcast,
        browse: BrowseKind::NotOffered,
        connection_fields: vec![field("port", FieldKind::U32), field("all", FieldKind::Bool)],
        addressing_fields: vec![field("object", FieldKind::Text), field("instance", FieldKind::U32)],
        default_port: 47808,
    }
}

fn state() -> WebState {
    WebState::new(
        vec![caps("bacnet"), caps("modbus")],
        vec!["modbus".to_string(), "unknown".to_string(), "bacnet".to_string()],
        config(),
        "/data/config.toml".to_string(),
        "booted".to_string(),
        5,
    )
}

fn identity(device: &str, object: &str) -> PointIdentity {
    PointIdentity {
        device_key: device.to_string(),
        addressing: vec![("object".to_string(), object.to_string())],
    }
}

fn point(device: &str, object: &str) -> PointConfig {
    let mut addressing = Table::new();
    addressing.insert("object".to_string(), Value::Text(object.to_string()));
    PointConfig {
        enabled: true,
        device_key: device.to_string(),
        addressing,
        tag_path: format!("{device}/{object}"),
        poll_interval_secs: 10,
    }
}

fn facts(device: &str, object: &str) -> PointFacts {
    PointFacts {
        identity: identity(device, object),
        rendered: vec![("object".to_string(), object.to_string())],
        display_name: format!("{device} {object}"),
        topic: format!("netix/{device}/{object}"),
    }
}

fn all_facts(state: &WebState) -> Vec<PointFacts> {
    state
        .shared
        .config
        .points
        .iter()
        .map(|p| {
            let object = match p.addressing.get(&"object".to_string()) {
                Some(Value::Text(t)) => t.clone(),
                _ => String::new(),
            };
            facts(&p.device_key, &object)
        })
        .collect()
}

fn device(key: &str) -> DiscoveredDevice {
    DiscoveredDevice {
        key: key.to_string(),
        instance: Some(7),
        address: "10.0.0.1".to_string(),
        detail: "d".to_string(),
    }
}

fn status(stale: bool, error: Option<&str>) -> PointStatus {
    PointStatus {
        last_value: None,
        last_sample_ms: Some(9),
        stale,
        consecutive_failures: 2,
        last_error: error.map(|e| e.to_string()),
        last_publish_error: None,
    }
}

fn sample(device: &str, object: &str, n: i64) -> SampleReport {
    SampleReport {
        sample: PointSample {
            identity: identity(device, object),
            device_key: device.to_string(),
            tag_path: format!("{device}/{object}"),
            display_name: object.to_string(),
            topic: "t".to_string(),
            value: PointValue { json: Value::Number(n.to_string()), display: n.to_string() },
            timestamp_ms: n,
        },
        status: status(false, None),
    }
}

fn browsed(name: &str) -> DiscoveredPoint {
    DiscoveredPoint {
        device_key: "AHU".to_string(),
        name: Some(name.to_string()),
        description: None,
        units: Some("C".to_string()),
        value: None,
        addressing: Table::new(),
        rendered: vec![],
        suggested_tag_path: format!("AHU/{name}"),
    }
}

#[test]
fn a_fresh_daemon_has_one_log_line() {
    let state = state();
    assert_eq!(state.shared.logs.len(), 1);
    assert_eq!(
        shown(&state.shared.logs[0].json()),
        r#"{"level":"info","message":"booted","seq":1,"ts_ms":5}"#
    );
    assert_eq!(state.shared.status_line, "booted");
    assert!(state.events.is_empty());
    assert_eq!(
        shown(&state.status_json()),
        r#"{"config_path":"/data/config.toml","devices":0,"lifecycle":{"error":null,"state":"stopped"},"points":0,"protocol":"bacnet","published_total":0,"scan_progress":null,"stale_points":0,"status_line":"booted"}"#
    );
}

#[test]
fn levels_have_names() {
    assert_eq!(level_str(LogLevel::Info), "info");
    assert_eq!(level_str(LogLevel::Warning), "warning");
    assert_eq!(level_str(LogLevel::Error), "error");
}

#[test]
fn the_status_line_is_logged_and_told() {
    let mut state = state();
    state.set_status(LogLevel::Warning, "careful", 6);
    assert_eq!(state.shared.status_line, "careful");
    assert_eq!(
        sent(&state),
        vec![
            r#"{"record":{"level":"warning","message":"careful","seq":2,"ts_ms":6},"status_line":"careful","type":"log"}"#
        ]
    );
}

#[test]
fn the_log_keeps_the_last_lines() {
    let mut state = state();
    for n in 0..LOG_CAPACITY as i64 + 3 {
        let e = WorkerEvent::Log(LogLevel::Info, n.to_string());
        assert!(state.can_apply(&e));
        state.apply_event(e, n);
    }
    assert_eq!(state.shared.logs.len(), LOG_CAPACITY);
    assert_eq!(state.shared.log_seq, LOG_CAPACITY as u64 + 4);
    assert_eq!(state.shared.logs[0].message, "3");
    assert_eq!(state.shared.logs[0].seq, 5);
    assert_eq!(state.shared.logs[LOG_CAPACITY - 1].seq, LOG_CAPACITY as u64 + 4);
}

#[test]
fn saving_is_noted_either_way() {
    let mut state = state();
    assert_eq!(state.save_config(SaveOutcome::Saved, 0), Ok(()));
    assert_eq!(state.shared.status_line, "Configuration saved");
    assert_eq!(
        state.save_config(SaveOutcome::Invalid("no host".to_string()), 0),
        Err("Config invalid: no host".to_string())
    );
    assert_eq!(
        state.save_config(SaveOutcome::Failed("disk full".to_string()), 0),
        Err("Save failed: disk full".to_string())
    );
    assert_eq!(state.shared.status_line, "Save failed: disk full");
    assert_eq!(state.shared.logs[3].level, "error");
}

#[test]
fn discovery_replaces_devices_and_logs_warnings() {
    let mut state = state();
    state.shared.devices = vec![device("old")];
    let after = state.apply_event(
        WorkerEvent::Devices {
            devices: vec![device("AHU-1")],
            warnings: vec!["w1".to_string(), "w2".to_string()],
        },
        7,
    );
    assert_eq!(after, AfterEvent::Done);
    assert_eq!(state.shared.devices.len(), 1);
    assert_eq!(
        sent(&state),
        vec![
            r#"{"record":{"level":"warning","message":"w1","seq":2,"ts_ms":7},"type":"log"}"#,
            r#"{"record":{"level":"warning","message":"w2","seq":3,"ts_ms":7},"type":"log"}"#,
            r#"{"devices":[{"address":"10.0.0.1","detail":"d","index":0,"instance":7,"key":"AHU-1"}],"type":"devices"}"#,
        ]
    );
}

#[test]
fn browsing_and_progress_are_told() {
    let mut state = state();
    state.apply_event(WorkerEvent::Points(vec![browsed("a"), browsed("b")]), 0);
    assert_eq!(state.shared.browsed.len(), 2);
    assert_eq!(js(&state.events[0])["points"][1]["name"], "b");
    assert_eq!(js(&state.events[0])["points"][1]["index"], 1);
    assert_eq!(js(&state.events[0])["type"], "browsed");
    state.apply_event(WorkerEvent::ScanProgress { current: 3, total: 8 }, 0);
    assert_eq!(state.shared.scan_progress, Some((3, 8)));
    assert_eq!(shown(&state.events[1]), r#"{"current":3,"total":8,"type":"scan_progress"}"#);
    assert_eq!(js(&state.status_json())["scan_progress"].to_string(), r#"{"current":3,"total":8}"#);
}

#[test]
fn an_import_is_saved_and_told() {
    let mut state = state();
    state.shared.scan_progress = Some((8, 8));
    let after = state.apply_event(
        WorkerEvent::BulkTagImport { points: vec![point("AHU", "ai1")], added: 1, updated: 4 },
        7,
    );
    assert_eq!(after, AfterEvent::Imported { added: 1, updated: 4 });
    assert_eq!(state.shared.scan_progress, None);
    assert!(state.events.is_empty());
    let facts = all_facts(&state);
    state.finish_import(1, 4, SaveOutcome::Failed("x".to_string()), &facts, 8);
    assert_eq!(state.shared.status_line, "Bulk import: 1 added, 4 updated");
    let messages: Vec<&str> = state.shared.logs.iter().map(|l| l.message.as_str()).collect();
    assert_eq!(messages, vec!["booted", "Save failed: x", "Bulk import: 1 added, 4 updated"]);
    assert_eq!(js(&state.events[2])["type"], "points");
    assert_eq!(js(&state.events[2])["points"][0]["identity"], "object=ai1");
}

#[test]
fn samples_update_statuses_and_stand_newest_first() {
    let mut state = state();
    state.apply_event(
        WorkerEvent::Samples(vec![sample("AHU", "ai1", 1), sample("AHU", "ai2", 2)]),
        0,
    );
    assert_eq!(state.shared.recent_samples[0].timestamp_ms, 2);
    assert_eq!(state.shared.recent_samples[1].timestamp_ms, 1);
    assert_eq!(state.shared.statuses.len(), 2);
    let told = js(&state.events[0]);
    assert_eq!(told["type"], "samples");
    assert_eq!(
        told["samples"][0].to_string(),
        r#"{"device_key":"AHU","display_name":"ai1","identity":"object=ai1","tag_path":"AHU/ai1","timestamp_ms":1,"topic":"t","value":1,"value_display":"1"}"#
    );
    assert_eq!(told["statuses"]["object=ai2"]["state"], "ok");

    let many = (0..RECENT_SAMPLE_CAPACITY as i64 + 5).map(|n| sample("AHU", "ai1", n)).collect();
    state.apply_event(WorkerEvent::Samples(many), 0);
    assert_eq!(state.shared.recent_samples.len(), RECENT_SAMPLE_CAPACITY);
    assert_eq!(state.shared.recent_samples[0].timestamp_ms, RECENT_SAMPLE_CAPACITY as i64 + 4);
    assert_eq!(state.shared.recent_samples[RECENT_SAMPLE_CAPACITY - 1].timestamp_ms, 5);
}

#[test]
fn failures_make_points_stale() {
    let mut state = state();
    state.apply_event(
        WorkerEvent::Failures(vec![
            StatusUpdate { identity: identity("A", "x"), status: status(true, Some("timeout")) },
            StatusUpdate { identity: identity("B", "y"), status: status(true, None) },
        ]),
        0,
    );
    assert_eq!(js(&state.status_json())["stale_points"], 2);
    let told = js(&state.events[0]);
    assert_eq!(told["type"], "statuses");
    assert_eq!(told["statuses"]["object=x"]["state"], "read_error");
    assert_eq!(told["statuses"]["object=y"]["state"], "stale");
}

#[test]
fn publications_are_counted_and_joined_to_points() {
    let mut state = state();
    state.apply_event(WorkerEvent::PublishStatus { published: 3 }, 0);
    state.apply_event(WorkerEvent::PublishStatus { published: 4 }, 0);
    assert_eq!(state.shared.published_total, 7);
    assert_eq!(shown(&state.events[1]), r#"{"published_total":7,"type":"stats"}"#);

    state.shared.config.points = vec![point("new name", "ai1")];
    let mut failed = status(false, None);
    failed.last_publish_error = Some("offline".to_string());
    state.apply_event(
        WorkerEvent::PointPublish(StatusUpdate { identity: identity("old name", "ai1"), status: failed }),
        0,
    );
    let key = js(&state.points_json(&all_facts(&state)))[0]["identity"].clone();
    let told = js(&state.events[2]);
    assert_eq!(told["statuses"][key.as_str().unwrap()]["state"], "publish_error");
}

#[test]
fn the_lifecycle_is_told_and_a_failure_logged() {
    let mut state = state();
    state.apply_event(WorkerEvent::Lifecycle(RepublisherLifecycle::Running), 0);
    assert_eq!(
        sent(&state),
        vec![r#"{"lifecycle":{"error":null,"state":"running"},"type":"lifecycle"}"#]
    );
    state.apply_event(WorkerEvent::Lifecycle(RepublisherLifecycle::Failed("no broker".to_string())), 9);
    assert_eq!(
        sent(&state)[1..],
        [
            r#"{"record":{"level":"error","message":"Republisher failed: no broker","seq":2,"ts_ms":9},"type":"log"}"#,
            r#"{"lifecycle":{"error":"no broker","state":"failed"},"type":"lifecycle"}"#,
        ]
    );
    state.apply_event(WorkerEvent::Finished("done".to_string()), 9);
    assert_eq!(state.shared.logs[2].message, "done");
    assert_eq!(state.shared.status_line, "booted");
}

#[test]
fn counters_that_are_full_take_no_more() {
    let mut state = state();
    state.shared.log_seq = u64::MAX;
    state.shared.published_total = usize::MAX;
    assert!(!state.can_log(1));
    assert!(state.can_log(0));
    assert!(!state.can_apply(&WorkerEvent::Finished("x".to_string())));
    assert!(!state.can_apply(&WorkerEvent::PublishStatus { published: 1 }));
    assert!(state.can_apply(&WorkerEvent::PublishStatus { published: 0 }));
    assert!(state.can_apply(&WorkerEvent::ScanProgress { current: 0, total: 1 }));
}

#[test]
fn the_snapshot_holds_everything_but_secrets() {
    let mut state = state();
    state.shared.config.points = vec![point("AHU", "ai1")];
    state.shared.devices = vec![device("AHU")];
    let document = js(&state.snapshot_json(&all_facts(&state)));
    let keys: Vec<&String> = document.as_object().unwrap().keys().collect();
    assert_eq!(
        keys,
        vec!["browsed", "capabilities", "config", "devices", "logs", "points", "recent_samples", "status", "type"]
    );
    assert_eq!(document["type"], "snapshot");
    assert_eq!(document["capabilities"][0]["id"], "modbus");
    assert_eq!(document["capabilities"][1]["id"], "bacnet");
    assert_eq!(document["capabilities"].as_array().unwrap().len(), 2);
    assert_eq!(document["config"]["config"], "bacnet None None");
    assert_eq!(
        document["config"]["secrets"].to_string(),
        r#"{"client_key_passphrase_set":false,"password_set":true}"#
    );
    assert!(!document.to_string().contains("stored"));
    assert_eq!(document["points"][0]["status"]["state"], "unknown");
    assert_eq!(document["logs"][0]["message"], "booted");
}

#[test]
fn the_later_adapter_of_a_name_counts() {
    let mut second = caps("bacnet");
    second.default_port = 1;
    let state = WebState::new(
        vec![caps("bacnet"), second],
        vec!["bacnet".to_string()],
        config(),
        String::new(),
        String::new(),
        0,
    );
    assert_eq!(state.caps.len(), 1);
    assert_eq!(js(&state.capabilities_json())[0]["default_port"], 1);
}

#[test]
fn a_logged_line_is_given_back_and_kept_last() {
    let mut state = state();
    let record = push_log(&mut state.shared, LogLevel::Error, "broken".to_string(), 12);
    assert_eq!((record.seq, record.ts_ms, record.level, record.message.as_str()), (2, 12, "error", "broken"));
    assert_eq!(shown(&state.shared.logs[1].json()), shown(&record.json()));
    assert_eq!((state.shared.logs.len(), state.shared.log_seq), (2, 2));
    assert_eq!(state.shared.status_line, "booted");
    assert!(state.events.is_empty());
}

#[test]
fn an_invalid_configuration_is_not_written() {
    match save_step(Err("no host".to_string())) {
        SaveStep::Refuse(SaveOutcome::Invalid(e)) => assert_eq!(e, "no host"),
        other => panic!("{other:?}"),
    }
    assert!(matches!(save_step(Ok(())), SaveStep::Write));
    assert!(matches!(write_outcome(Ok(())), SaveOutcome::Saved));
    match write_outcome(Err("disk full".to_string())) {
        SaveOutcome::Failed(e) => assert_eq!(e, "disk full"),
        other => panic!("{other:?}"),
    }
}
