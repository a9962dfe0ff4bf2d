use republisher::config::{AppConfig, MqttConfig, PayloadFormat};
use republisher::json::Json;
use republisher::model::{
    BrowseKind, Capabilities, DiscoveredDevice, DiscoveredPoint, DiscoveryKind, FieldKind,
    FieldSpec, LogLevel, PointConfig, PointFacts, PointIdentity, PointSample, PointStatus,
    PointValue, RepublisherLifecycle, Value,
};
use republisher::table::Table;
use republisher::table::Duplicate;
use republisher::web::api;
use republisher::web::api::{
    AfterSave, ApiError, ConnectionReq, FormValues, Interface, LoginReq, MqttSettingsReq, PointReq,
    ProtocolReq, SettingsReq, ToggleReq, UiSettingsReq, WorkerCommand,
};
use republisher::web::auth::{Auth, ClientIp, Credential, LOGIN_MAX_FAILURES};
use republisher::web::state::{SaveOutcome, WebState};

fn mqtt() -> MqttConfig {
    MqttConfig {
        host: "localhost".to_string(),
        port: 8883,
        use_tls: true,
        client_id: "republisher".to_string(),
        topic_prefix: "netix".to_string(),
        health_topic: "netix/health".to_string(),
        username: None,
        password: Some("stored".to_string()),
        password_env: Some("VAR".to_string()),
        ca_cert_path: None,
        client_cert_path: None,
        client_key_path: None,
        client_key_passphrase: None,
        remember_secrets: true,
        retain: false,
        keep_alive_secs: 30,
        payload_format: PayloadFormat::Scalar,
        device_topic_prefix: "devices".to_string(),
        autostart: false,
    }
}

fn config() -> AppConfig {
    AppConfig {
        protocol: "bacnet".to_string(),
        mqtt: mqtt(),
        connections: Table::new(),
        points: Vec::new(),
        discover_on_start: false,
        theme: "dark".to_string(),
    }
}

fn value(v: &Value) -> serde_json::Value {
    match v {
        Value::Null => serde_json::Value::Null,
        Value::Bool(b) => serde_json::Value::Bool(*b),
        Value::Text(s) => serde_json::Value::String(s.clone()),
        Value::Number(s) | Value::Nested(s) => serde_json::from_str(s).unwrap(),
    }
}

/// The document as text, with the members of objects in order of their names. Of a configuration
/// only the secrets are shown.
fn js(j: &Json) -> serde_json::Value {
    match j {
        Json::Null => serde_json::Value::Null,
        Json::Bool(b) => serde_json::Value::Bool(*b),
        Json::Uint(n) => serde_json::Value::from(*n),
        Json::Int(n) => serde_json::Value::from(*n),
        Json::Text(s) => serde_json::Value::String(s.clone()),
        Json::Value(v) => value(v),
        Json::List(items) => serde_json::Value::Array(items.iter().map(js).collect()),
        Json::Object(fields) => {
            serde_json::Value::Object(fields.iter().map(|(k, v)| (k.clone(), js(v))).collect())
        }
        Json::Config(c) => serde_json::Value::String(format!(
            "{} {:?} {:?}",
            c.protocol, c.mqtt.password, c.mqtt.client_key_passphrase
        )),
    }
}

fn shown(j: &Json) -> String {
    js(j).to_string()
}

fn sent(state: &WebState) -> Vec<String> {
    state.events.iter().map(shown).collect()
}

fn field(key: &str, kind: FieldKind) -> FieldSpec {
    FieldSpec { key: key.to_string(), label: key.to_uppercase(), kind, default: None, help: None }
}

fn caps(id: &str) -> Capabilities {
    Capabilities {
        id: id.to_string(),
        display_name: id.to_uppercase(),
        discovery: DiscoveryKind::Broadcast,
        browse: BrowseKind::NotOffered,
        connection_fields: vec![field("port", FieldKind::U32), field("all", FieldKind::Bool)],
        addressing_fields: vec![field("object", FieldKind::Text), field("instance", FieldKind::U32)],
        default_port: 47808,
    }
}

fn state() -> WebState {
    WebState::new(
        vec![caps("bacnet"), caps("modbus")],
        vec!["modbus".to_string(), "unknown".to_string(), "bacnet".to_string()],
        config(),
        "/data/config.toml".to_string(),
        "booted".to_string(),
        5,
    )
}

fn identity(device: &str, object: &str) -> PointIdentity {
    PointIdentity {
        device_key: device.to_string(),
        addressing: vec![("object".to_string(), object.to_string())],
    }
}

fn point(device: &str, object: &str) -> PointConfig {
    let mut addressing = Table::new();
    addressing.insert("object".to_string(), Value::Text(object.to_string()));
    PointConfig {
        enabled: true,
        device_key: device.to_string(),
        addressing,
        tag_path: format!("{device}/{object}"),
        poll_interval_secs: 10,
    }
}

fn facts(device: &str, object: &str) -> PointFacts {
    PointFacts {
        identity: identity(device, object),
        rendered: vec![("object".to_string(), object.to_string())],
        display_name: format!("{device} {object}"),
        topic: format!("netix/{device}/{object}"),
    }
}

fn all_facts(state: &WebState) -> Vec<PointFacts> {
    state
        .shared
        .config
        .points
        .iter()
        .map(|p| {
            let object = match p.addressing.get(&"object".to_string()) {
                Some(Value::Text(t)) => t.clone(),
                _ => String::new(),
            };
            facts(&p.device_key, &object)
        })
        .collect()
}

fn device(key: &str) -> DiscoveredDevice {
    DiscoveredDevice {
        key: key.to_string(),
        instance: Some(7),
        address: "10.0.0.1".to_string(),
        detail: "d".to_string(),
    }
}

fn form(pairs: &[(&str, &str)]) -> FormValues {
    let mut out: FormValues = Table::new();
    for (key, value) in pairs {
        out.insert(key.to_string(), value.to_string());
    }
    out
}

fn refusal<T>(r: Result<T, ApiError>) -> (u16, String, String) {
    match r {
        Ok(_) => panic!("should be refused"),
        Err(e) => (e.status, e.message.clone(), shown(&e.body())),
    }
}

fn points(state: &WebState) -> Vec<String> {
    state.shared.config.points.iter().map(|p| p.tag_path.clone()).collect()
}

fn settings() -> MqttSettingsReq {
    MqttSettingsReq {
        host: "h".to_string(),
        port: 1,
        use_tls: false,
        client_id: "c".to_string(),
        topic_prefix: "t".to_string(),
        health_topic: "ht".to_string(),
        username: Some("  ".to_string()),
        password: None,
        ca_cert_path: Some(" /ca ".to_string()),
        client_cert_path: None,
        client_key_path: None,
        client_key_passphrase: Some("phrase".to_string()),
        remember_secrets: false,
        retain: true,
        keep_alive_secs: 0,
        payload_format: PayloadFormat::NetixEnvelope,
        device_topic_prefix: "d".to_string(),
        autostart: true,
    }
}

#[test]
fn forms_become_typed_values() {
    let specs = vec![
        field("n", FieldKind::U32),
        field("bad", FieldKind::U32),
        field("b", FieldKind::Bool),
        field("t", FieldKind::Text),
        field("absent", FieldKind::U32),
        field("s", FieldKind::Secret),
        field("e", FieldKind::Enum(vec!["x".to_string()])),
    ];
    let values = form(&[("n", " 007 "), ("bad", " 1.5 "), ("b", "true"), ("t", " x "), ("s", "y"), ("other", "z"), ("e", "x")]);
    let built = api::build_addressing(&specs, &values);
    let get = |key: &str| built.get(&key.to_string()).map(|v| value(v).to_string());
    assert_eq!(built.len(), 7);
    assert_eq!(get("n").as_deref(), Some("7"));
    assert_eq!(get("bad").as_deref(), Some("\" 1.5 \""));
    assert_eq!(get("b").as_deref(), Some("true"));
    assert_eq!(get("t").as_deref(), Some("\" x \""));
    assert_eq!(get("absent").as_deref(), Some("\"\""));
    assert_eq!(get("s").as_deref(), Some("\"y\""));
    assert_eq!(get("e").as_deref(), Some("\"x\""));
    assert_eq!(get("other"), None);
}

#[test]
fn reads_answer_documents() {
    let mut state = state();
    state.shared.config.points = vec![point("AHU", "ai1")];
    let facts = all_facts(&state);
    assert_eq!(api::health(), "ok");
    assert_eq!(shown(&api::get_state(&state, &facts)), shown(&state.snapshot_json(&facts)));
    assert_eq!(shown(&api::get_status(&state)), shown(&state.status_json()));
    assert_eq!(js(&api::get_capabilities(&state))["protocols"].as_array().unwrap().len(), 2);
    assert_eq!(js(&api::get_config(&state))["secrets"]["password_set"], true);
    assert_eq!(js(&api::get_points(&state, &facts))[0]["topic"], "netix/AHU/ai1");
    assert_eq!(js(&api::get_logs(&state))["logs"][0]["message"], "booted");
}

#[test]
fn listing_interfaces_is_noted() {
    let mut state = state();
    let list = vec![Interface { name: "eth0".to_string(), addr: "10.0.0.2".to_string() }];
    let reply = api::get_interfaces(&mut state, &list, 3);
    assert_eq!(shown(&reply), r#"{"interfaces":[{"addr":"10.0.0.2","name":"eth0"}]}"#);
    assert_eq!(state.shared.status_line, "Refreshed 1 network interface(s)");
}

#[test]
fn choosing_a_protocol_forgets_what_was_found() {
    let mut state = state();
    state.shared.devices = vec![device("AHU")];
    let reply = api::set_protocol(&mut state, ProtocolReq { id: "modbus".to_string() });
    assert_eq!(shown(&reply.unwrap()), r#"{"ok":true}"#);
    assert_eq!(state.shared.config.protocol, "modbus");
    assert!(state.shared.devices.is_empty());
    assert_eq!(js(&state.events[0])["type"], "config");
    assert_eq!(
        sent(&state)[1..],
        [r#"{"devices":[],"type":"devices"}"#, r#"{"points":[],"type":"browsed"}"#]
    );
    assert_eq!(
        refusal(api::set_protocol(&mut state, ProtocolReq { id: "x".to_string() })),
        (400, "unknown protocol 'x'".to_string(), r#"{"error":"unknown protocol 'x'"}"#.to_string())
    );
    assert_eq!(state.shared.config.protocol, "modbus");
    assert_eq!(state.events.len(), 3);
}

#[test]
fn a_connection_is_replaced_and_saved() {
    let mut state = state();
    let req = ConnectionReq { values: form(&[("port", "47808"), ("all", "true")]) };
    let after = api::set_connection(&mut state, req).unwrap();
    assert_eq!(after, AfterSave::Config);
    assert!(matches!(
        state.shared.config.connection().get(&"port".to_string()),
        Some(Value::Number(n)) if n == "47808"
    ));
    let reply = api::finish_save(&mut state, after, SaveOutcome::Saved, &vec![], 4);
    assert_eq!(shown(&reply.unwrap()), r#"{"ok":true}"#);
    assert_eq!(js(&state.events[0])["status_line"], "Configuration saved");
    assert_eq!(js(&state.events[1])["type"], "config");

    state.shared.config.protocol = "gone".to_string();
    let refused = api::set_connection(&mut state, ConnectionReq { values: form(&[]) });
    assert_eq!(refusal(refused).1, "no protocol selected");
}

#[test]
fn a_configuration_that_is_not_saved_is_refused() {
    let mut state = state();
    let after = api::set_connection(&mut state, ConnectionReq { values: form(&[]) }).unwrap();
    let outcome = SaveOutcome::Invalid("broker host is empty".to_string());
    let refused = api::finish_save(&mut state, after, outcome, &vec![], 4);
    let (status, message, _) = refusal(refused);
    assert_eq!((status, message.as_str()), (400, "Config invalid: broker host is empty"));
    assert_eq!(state.events.len(), 1);
}

#[test]
fn discovery_browsing_and_scans_start_workers() {
    let mut state = state();
    assert_eq!(refusal(api::discover(&mut state, false, 0)).0, 400);
    assert!(matches!(api::discover(&mut state, true, 0), Ok(WorkerCommand::Discover { .. })));
    assert_eq!(state.shared.status_line, "Discovering…");

    let empty = refusal(api::scan_all(&mut state, true, 0));
    assert_eq!((empty.0, empty.1.as_str()), (400, "discover devices before scan-all"));
    assert_eq!(state.shared.status_line, "Discover devices before scan-all");

    state.shared.devices = vec![device("AHU"), device("VAV")];
    assert_eq!(
        refusal(api::browse_device(&mut state, 2, false, 0)),
        (404, "no such discovered device".to_string(), r#"{"error":"no such discovered device"}"#.to_string())
    );
    assert_eq!(refusal(api::browse_device(&mut state, 1, false, 0)).1, "no protocol selected");
    match api::browse_device(&mut state, 1, true, 0) {
        Ok(WorkerCommand::Browse { device, .. }) => assert_eq!(device.key, "VAV"),
        _ => panic!("should browse"),
    }
    assert_eq!(state.shared.status_line, "Browsing VAV…");

    assert_eq!(refusal(api::scan_all(&mut state, false, 0)).1, "no protocol selected");
    state.shared.config.points = vec![point("AHU", "ai1")];
    match api::scan_all(&mut state, true, 0) {
        Ok(WorkerCommand::ScanAll { devices, existing, .. }) => {
            assert_eq!((devices.len(), existing.len()), (2, 1));
        }
        _ => panic!("should scan"),
    }
    assert_eq!(state.shared.scan_progress, Some((0, 2)));
    assert_eq!(
        sent(&state).last().unwrap(),
        r#"{"current":0,"total":2,"type":"scan_progress"}"#
    );

    assert_eq!(refusal(api::poll_once(&mut state, false, 0)).1, "no protocol selected");
    match api::poll_once(&mut state, true, 0) {
        Ok(WorkerCommand::PollOnce { mqtt, points, .. }) => {
            assert_eq!((mqtt.host.as_str(), points.len()), ("localhost", 1));
        }
        _ => panic!("should poll"),
    }
    assert_eq!(state.shared.status_line, "Polling once…");
}

#[test]
fn points_are_added_edited_toggled_and_removed() {
    let mut state = state();
    let req = |index: Option<usize>, tag: &str| PointReq {
        index,
        enabled: api::default_enabled(),
        device_key: " AHU ".to_string(),
        tag_path: tag.to_string(),
        poll_interval_secs: 0,
        addressing: form(&[("object", "ai1"), ("instance", "3")]),
    };
    assert_eq!(api::default_poll_interval(), 10);
    assert!(matches!(api::save_point(&mut state, req(None, " a ")), Ok(AfterSave::Points)));
    assert!(api::save_point(&mut state, req(None, "b")).is_ok());
    assert!(api::save_point(&mut state, req(None, "c")).is_ok());
    assert_eq!(points(&state), vec!["a", "b", "c"]);
    assert_eq!(state.shared.config.points[0].device_key, "AHU");
    assert_eq!(state.shared.config.points[0].poll_interval_secs, 1);
    assert!(matches!(
        state.shared.config.points[0].addressing.get(&"instance".to_string()),
        Some(Value::Number(n)) if n == "3"
    ));
    assert!(api::save_point(&mut state, req(Some(1), "B")).is_ok());
    assert_eq!(points(&state), vec!["a", "B", "c"]);
    assert_eq!(refusal(api::save_point(&mut state, req(Some(3), "x"))).1, "no such point");

    assert!(api::toggle_point(&mut state, 2, ToggleReq { enabled: false }).is_ok());
    let enabled: Vec<bool> = state.shared.config.points.iter().map(|p| p.enabled).collect();
    assert_eq!(enabled, vec![true, true, false]);
    assert_eq!(refusal(api::toggle_point(&mut state, 3, ToggleReq { enabled: true })).0, 404);

    assert!(api::delete_point(&mut state, 0).is_ok());
    assert_eq!(points(&state), vec!["B", "c"]);
    assert_eq!(refusal(api::delete_point(&mut state, 2)).0, 404);

    state.shared.config.protocol = "gone".to_string();
    assert_eq!(refusal(api::save_point(&mut state, req(None, "x"))).1, "select a protocol first");
}

#[test]
fn clearing_points_forgets_statuses() {
    let mut state = state();
    state.shared.config.points = vec![point("A", "x"), point("B", "y")];
    let unread = PointStatus {
        last_value: None,
        last_sample_ms: None,
        stale: true,
        consecutive_failures: 0,
        last_error: None,
        last_publish_error: None,
    };
    state.shared.statuses.insert(identity("A", "x"), unread);
    let after = api::clear_points(&mut state);
    assert_eq!(after, AfterSave::Cleared(2));
    assert_eq!(state.shared.statuses.len(), 0);
    let reply = api::finish_save(&mut state, after, SaveOutcome::Saved, &vec![], 0).unwrap();
    assert_eq!(shown(&reply), r#"{"ok":true,"removed":2}"#);
    assert_eq!(state.shared.status_line, "Cleared 2 configured point(s).");
    assert_eq!(sent(&state).last().unwrap(), r#"{"points":[],"type":"points"}"#);
}

#[test]
fn a_browsed_point_takes_the_place_of_its_like() {
    let mut state = state();
    state.shared.config.points = vec![point("A", "x"), point("B", "y"), point("B", "y")];
    let mut addressing = Table::new();
    addressing.insert("object".to_string(), Value::Text("y".to_string()));
    state.shared.browsed = vec![DiscoveredPoint {
        device_key: "B".to_string(),
        name: None,
        description: None,
        units: None,
        value: None,
        addressing,
        rendered: vec![],
        suggested_tag_path: "B/new".to_string(),
    }];
    assert_eq!(refusal(api::browsed_point(&state, 1)).1, "no such browsed point");
    let found = api::browsed_point(&state, 0).unwrap();
    assert!(found.enabled);
    assert_eq!(found.poll_interval_secs, 10);
    let identities = vec![identity("A", "x"), identity("B", "y"), identity("B", "y")];
    let after = api::add_browsed_point(&mut state, found, &identity("B", "y"), &identities);
    assert_eq!(after, AfterSave::FromBrowse);
    assert_eq!(points(&state), vec!["A/x", "B/new", "B/y"]);

    let found = api::browsed_point(&state, 0).unwrap();
    api::add_browsed_point(&mut state, found, &identity("C", "y"), &identities);
    assert_eq!(points(&state), vec!["A/x", "B/new", "B/y", "B/new"]);
    let facts = all_facts(&state);
    let reply = api::finish_save(&mut state, after, SaveOutcome::Saved, &facts, 0);
    assert!(reply.is_ok());
    assert_eq!(state.shared.status_line, "Added point from browse");
}

#[test]
fn settings_are_replaced_and_secrets_kept_cleared_or_taken_over() {
    let mut state = state();
    let after = api::put_settings(&mut state, SettingsReq { mqtt: settings(), ui: None });
    assert_eq!(after, AfterSave::Config);
    let m = state.shared.config.mqtt.duplicate();
    assert_eq!(m.password.as_deref(), Some("stored"));
    assert_eq!(m.client_key_passphrase.as_deref(), Some("phrase"));
    assert_eq!(m.password_env.as_deref(), Some("VAR"));
    assert_eq!(m.username, None);
    assert_eq!(m.ca_cert_path.as_deref(), Some("/ca"));
    assert_eq!(m.keep_alive_secs, 1);
    assert_eq!(m.payload_format, PayloadFormat::NetixEnvelope);
    assert!(m.autostart && m.retain && !m.use_tls && !m.remember_secrets);
    assert_eq!(state.shared.config.theme, "dark");

    let mut clear = settings();
    clear.password = Some(String::new());
    clear.client_key_passphrase = None;
    let ui = Some(UiSettingsReq { theme: "light".to_string() });
    api::put_settings(&mut state, SettingsReq { mqtt: clear, ui });
    assert_eq!(state.shared.config.mqtt.password, None);
    assert_eq!(state.shared.config.mqtt.client_key_passphrase.as_deref(), Some("phrase"));
    assert_eq!(state.shared.config.theme, "light");

    let mut replace = settings();
    replace.password = Some(" ".to_string());
    api::put_settings(&mut state, SettingsReq { mqtt: replace, ui: None });
    assert_eq!(state.shared.config.mqtt.password.as_deref(), Some(" "));
}

#[test]
fn one_republisher_is_started_at_a_time() {
    let mut state = state();
    for lifecycle in [
        RepublisherLifecycle::Starting,
        RepublisherLifecycle::Running,
        RepublisherLifecycle::Stopping,
    ] {
        state.shared.lifecycle = lifecycle;
        let refused = refusal(api::start_republisher(&mut state, None, true, 0));
        assert_eq!((refused.0, refused.1.as_str()), (409, "republisher is already running"));
    }
    state.shared.lifecycle = RepublisherLifecycle::Failed("x".to_string());
    let refused = refusal(api::start_republisher(&mut state, Some("no host".to_string()), true, 0));
    assert_eq!((refused.0, refused.1.as_str()), (400, "Cannot start: no host"));
    assert_eq!(state.shared.status_line, "Cannot start: no host");
    assert_eq!(refusal(api::start_republisher(&mut state, None, false, 0)).1, "no protocol selected");
    assert_eq!(state.shared.stop_flag, None);

    state.shared.published_total = 9;
    assert!(matches!(
        api::start_republisher(&mut state, None, true, 0),
        Ok(WorkerCommand::Republish { .. })
    ));
    assert_eq!(state.shared.stop_flag, Some(false));
    assert_eq!(state.shared.published_total, 0);
    assert_eq!(state.shared.status_line, "Republisher starting…");
}

#[test]
fn stopping_asks_a_started_republisher() {
    let mut state = state();
    assert_eq!(shown(&api::stop_republisher(&mut state, 0)), r#"{"ok":true}"#);
    assert_eq!(state.shared.status_line, "booted");
    state.shared.stop_flag = Some(false);
    api::stop_republisher(&mut state, 0);
    assert_eq!(state.shared.stop_flag, Some(true));
    assert_eq!(state.shared.status_line, "Stopping republisher…");
}

#[test]
fn a_login_opens_a_session_that_a_logout_closes() {
    let mut auth = Auth::new(true, false, Some(Credential::Plain("pw".to_string())));
    let ip = ClientIp::V4(1);
    let good = LoginReq { password: "pw".to_string() };
    let reply = api::login(&mut auth, ip, &good, 10);
    assert_eq!((reply.status, shown(&reply.body).as_str()), (200, r#"{"ok":true}"#));
    let cookie = reply.cookie.unwrap();
    let header = cookie.split(';').next().unwrap().to_string();
    assert_eq!(header.len(), "republisher_sid=".len() + 48);
    assert_eq!(
        shown(&api::session_info(&mut auth, Some(&header), 11)),
        r#"{"auth_required":true,"authenticated":true}"#
    );
    let reply = api::logout(&mut auth, Some(&header));
    assert_eq!(reply.status, 200);
    assert_eq!(
        reply.cookie.as_deref(),
        Some("republisher_sid=; Path=/; HttpOnly; SameSite=Strict; Max-Age=0")
    );
    assert_eq!(
        shown(&api::session_info(&mut auth, Some(&header), 11)),
        r#"{"auth_required":true,"authenticated":false}"#
    );
    assert_eq!(
        shown(&api::session_info(&mut auth, None, 11)),
        r#"{"auth_required":true,"authenticated":false}"#
    );
    assert_eq!(api::logout(&mut auth, None).status, 200);
}

#[test]
fn wrong_passwords_are_refused_and_then_turned_away() {
    let mut auth = Auth::new(true, false, Some(Credential::Plain("pw".to_string())));
    let ip = ClientIp::V4(1);
    let bad = LoginReq { password: "guess".to_string() };
    for _ in 0..LOGIN_MAX_FAILURES {
        let reply = api::login(&mut auth, ip, &bad, 10);
        assert_eq!((reply.status, shown(&reply.body).as_str()), (401, r#"{"error":"invalid password"}"#));
        assert_eq!(reply.cookie, None);
    }
    let good = LoginReq { password: "pw".to_string() };
    let reply = api::login(&mut auth, ip, &good, 10);
    assert_eq!(
        (reply.status, shown(&reply.body).as_str()),
        (429, r#"{"error":"too many attempts; retry later"}"#)
    );
    assert_eq!(api::login(&mut auth, ClientIp::V4(2), &good, 10).status, 200);
}

#[test]
fn a_login_is_settled_by_the_password_check() {
    let mut auth = Auth::new(true, true, None);
    let reply = api::settle_login(&mut auth, ClientIp::V4(1), Some("tok".to_string()), 10);
    assert_eq!(
        reply.cookie.as_deref(),
        Some("republisher_sid=tok; Path=/; HttpOnly; SameSite=Strict; Secure")
    );
    assert!(auth.check_session("tok", 11));
    assert_eq!(api::settle_login(&mut auth, ClientIp::V4(1), None, 10).status, 401);
}

#[test]
fn without_authentication_every_login_is_good() {
    let mut auth = Auth::new(false, false, None);
    let reply = api::login(&mut auth, ClientIp::V4(1), &LoginReq { password: String::new() }, 0);
    assert_eq!((reply.status, reply.cookie), (200, None));
    assert_eq!(
        shown(&api::session_info(&mut auth, None, 0)),
        r#"{"auth_required":false,"authenticated":true}"#
    );
}

#[test]
fn filled_fields_are_trimmed_once_and_for_all() {
    let some = |text: &str| Some(text.to_string());
    assert_eq!(api::non_empty(None), None);
    assert_eq!(api::non_empty(some("")), None);
    assert_eq!(api::non_empty(some(" \t")), None);
    let once = api::non_empty(some("  a b "));
    assert_eq!(once.as_deref(), Some("a b"));
    assert_eq!(api::non_empty(once.clone()), once);
    let mut secret = some("kept");
    api::apply_secret(&mut secret, None);
    assert_eq!(secret.as_deref(), Some("kept"));
    api::apply_secret(&mut secret, some(" "));
    assert_eq!(secret.as_deref(), Some(" "));
    api::apply_secret(&mut secret, some(""));
    assert_eq!(secret, None);
}
