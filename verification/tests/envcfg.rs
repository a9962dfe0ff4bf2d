use republisher::config::{AppConfig, MqttConfig, PayloadFormat};
use republisher::error::BootError;
use republisher::model::{PointConfig, Value};
use republisher::table::{Duplicate, Table};
use republisher::web::auth::EnvVars;
use republisher::web::envcfg;
use republisher::web::envcfg::{
    apply_env_overrides, env_bool, env_parse, merge_connection, MergedPoints,
};

fn config() -> AppConfig {
    AppConfig {
        protocol: String::new(),
        mqtt: MqttConfig {
            host: "localhost".to_string(),
            port: 8883,
            use_tls: true,
            client_id: "republisher".to_string(),
            topic_prefix: "netix".to_string(),
            health_topic: "netix/health".to_string(),
            username: None,
            password: Some("stored".to_string()),
            password_env: None,
            ca_cert_path: None,
            client_cert_path: None,
            client_key_path: None,
            client_key_passphrase: None,
            remember_secrets: true,
            retain: false,
            keep_alive_secs: 30,
            payload_format: PayloadFormat::Scalar,
            device_topic_prefix: "devices".to_string(),
            autostart: false,
        },
        connections: Table::new(),
        points: Vec::new(),
        discover_on_start: false,
        theme: "dark".to_string(),
    }
}

fn vars(pairs: &[(&str, &str)]) -> EnvVars {
    let mut out: EnvVars = Table::new();
    for (key, value) in pairs {
        out.insert(key.to_string(), value.to_string());
    }
    out
}

/// What merging the array in `raw` into no points gives.
fn import(raw: &str) -> Result<MergedPoints, String> {
    let list: Vec<serde_json::Value> = serde_json::from_str(raw).map_err(|e| e.to_string())?;
    let text = |item: &serde_json::Value, key: &str| {
        item.get(key).and_then(|v| v.as_str()).unwrap_or("").to_string()
    };
    let mut points = Vec::new();
    for item in &list {
        let mut addressing = Table::new();
        if let Some(object) = item.get("addressing").and_then(|v| v.as_object()) {
            for (key, value) in object {
                addressing.insert(key.clone(), Value::Number(value.to_string()));
            }
        }
        points.push(PointConfig {
            enabled: true,
            device_key: text(item, "device_key"),
            addressing,
            tag_path: text(item, "tag_path"),
            poll_interval_secs: 10,
        });
    }
    let added = points.len();
    Ok(MergedPoints { points, added, updated: 0 })
}

fn nothing() -> Result<MergedPoints, String> {
    Ok(MergedPoints { points: Vec::new(), added: 0, updated: 0 })
}

fn applied(pairs: &[(&str, &str)]) -> (AppConfig, Result<Vec<String>, BootError>) {
    let mut config = config();
    let notes = apply_env_overrides(&mut config, &vars(pairs), None, nothing());
    (config, notes)
}

#[test]
fn env_overrides_apply_and_validate() {
    let points = r#"[{"device_key":"AHU-1","tag_path":"AHU-1/Temp","addressing":{"device_instance":10700}}]"#;
    let pairs = [
        ("REPUBLISHER_PROTOCOL", "bacnet"),
        ("REPUBLISHER_MQTT_HOST", "broker.example"),
        ("REPUBLISHER_MQTT_PORT", "1883"),
        ("REPUBLISHER_MQTT_TLS", "false"),
        ("REPUBLISHER_MQTT_PAYLOAD_FORMAT", "netix_envelope"),
        ("REPUBLISHER_AUTOSTART", "true"),
        ("REPUBLISHER_DISCOVER_ON_START", "true"),
        (
            "REPUBLISHER_CONNECTION_JSON",
            r#"{"port": 0, "discover_all_interfaces": true}"#,
        ),
        ("REPUBLISHER_POINTS_JSON", points),
    ];
    let mut config = self::config();
    let notes = apply_env_overrides(&mut config, &vars(&pairs), None, import(points))
        .expect("overrides apply");

    assert_eq!(config.protocol, "bacnet");
    assert_eq!(config.mqtt.host, "broker.example");
    assert_eq!(config.mqtt.port, 1883);
    assert!(!config.mqtt.use_tls);
    assert_eq!(config.mqtt.payload_format, PayloadFormat::NetixEnvelope);
    assert!(config.mqtt.autostart);
    assert!(config.discover_on_start);
    assert!(matches!(
        config.connection().get(&"discover_all_interfaces".to_string()),
        Some(Value::Bool(true))
    ));
    assert_eq!(config.points.len(), 1);
    assert_eq!(config.points[0].tag_path, "AHU-1/Temp");
    assert!(!notes.is_empty());

    let mut fresh = self::config();
    let error = apply_env_overrides(
        &mut fresh,
        &vars(&[("REPUBLISHER_MQTT_PORT", "not-a-port")]),
        None,
        nothing(),
    )
    .unwrap_err();
    assert!(error.full_text().contains("REPUBLISHER_MQTT_PORT"));

    let named = vars(&[
        ("REPUBLISHER_MQTT_PASSWORD_ENV", "MY_BROKER_SECRET_VAR"),
        ("MY_BROKER_SECRET_VAR", "indirect-secret"),
    ]);
    let secret = envcfg::env(&named, "MY_BROKER_SECRET_VAR");
    let mut config = self::config();
    apply_env_overrides(&mut config, &named, secret, nothing()).expect("overrides apply");
    assert_eq!(config.mqtt.password_env.as_deref(), Some("MY_BROKER_SECRET_VAR"));
    assert_eq!(config.mqtt.password.as_deref(), Some("indirect-secret"));
}

#[test]
fn notes_name_what_was_overridden() {
    let points = r#"[{"device_key":"AHU-1","tag_path":"T","addressing":{"device_instance":10700}}]"#;
    let mut config = self::config();
    let notes = apply_env_overrides(
        &mut config,
        &vars(&[
            ("REPUBLISHER_PROTOCOL", " modbus "),
            ("REPUBLISHER_MQTT_PASSWORD_ENV", "ELSEWHERE"),
            ("REPUBLISHER_AUTOSTART", "Off"),
            ("REPUBLISHER_CONNECTION_JSON", "{}"),
            ("REPUBLISHER_POINTS_JSON", points),
        ]),
        None,
        import(points),
    )
    .unwrap();
    assert_eq!(
        notes,
        vec![
            "protocol = modbus (env)",
            "mqtt.password_env = ELSEWHERE (env, unresolved)",
            "mqtt.autostart = false (env)",
            "connection (env JSON merge)",
            "points (env JSON merge: 1 added, 0 updated)",
        ]
    );
    assert_eq!(config.mqtt.password.as_deref(), Some("stored"));
    assert_eq!(config.connections.len(), 1);
}

#[test]
fn every_text_setting_has_its_variable() {
    let (config, notes) = applied(&[
        ("REPUBLISHER_MQTT_HOST", "h"),
        ("REPUBLISHER_MQTT_CLIENT_ID", "ci"),
        ("REPUBLISHER_MQTT_TOPIC_PREFIX", "tp"),
        ("REPUBLISHER_MQTT_HEALTH_TOPIC", "ht"),
        ("REPUBLISHER_MQTT_USERNAME", "u"),
        ("REPUBLISHER_MQTT_PASSWORD", "p"),
        ("REPUBLISHER_MQTT_CA_CERT", "ca"),
        ("REPUBLISHER_MQTT_CLIENT_CERT", "cc"),
        ("REPUBLISHER_MQTT_CLIENT_KEY", "ck"),
        ("REPUBLISHER_MQTT_CLIENT_KEY_PASSPHRASE", "pp"),
        ("REPUBLISHER_MQTT_DEVICE_TOPIC_PREFIX", "dp"),
    ]);
    let m = config.mqtt;
    assert_eq!(
        (m.host.as_str(), m.client_id.as_str(), m.topic_prefix.as_str(), m.health_topic.as_str()),
        ("h", "ci", "tp", "ht")
    );
    assert_eq!((m.username.as_deref(), m.password.as_deref()), (Some("u"), Some("p")));
    assert_eq!(
        (m.ca_cert_path.as_deref(), m.client_cert_path.as_deref(), m.client_key_path.as_deref()),
        (Some("ca"), Some("cc"), Some("ck"))
    );
    assert_eq!(m.client_key_passphrase.as_deref(), Some("pp"));
    assert_eq!(m.device_topic_prefix, "dp");
    let notes = notes.unwrap();
    assert_eq!(notes.len(), 11);
    assert_eq!(notes[0], "mqtt.host (env)");
    assert_eq!(notes[10], "mqtt.device_topic_prefix (env)");
}

#[test]
fn a_blank_variable_changes_nothing() {
    let (config, notes) = applied(&[("REPUBLISHER_MQTT_HOST", "  "), ("REPUBLISHER_MQTT_PORT", "")]);
    assert_eq!(config.mqtt.host, "localhost");
    assert_eq!(config.mqtt.port, 8883);
    assert!(notes.unwrap().is_empty());
}

#[test]
fn the_keep_alive_is_at_least_a_second() {
    let (config, _) = applied(&[("REPUBLISHER_MQTT_KEEP_ALIVE_SECS", "0")]);
    assert_eq!(config.mqtt.keep_alive_secs, 1);
    let (config, _) = applied(&[("REPUBLISHER_MQTT_KEEP_ALIVE_SECS", " 45 ")]);
    assert_eq!(config.mqtt.keep_alive_secs, 45);
}

#[test]
fn truth_values_have_several_spellings() {
    for (raw, value) in [("1", true), ("YES", true), (" on ", true), ("0", false), ("No", false), ("off", false)] {
        assert_eq!(env_bool(&vars(&[("K", raw)]), "K").unwrap(), Some(value));
    }
    assert_eq!(env_bool(&vars(&[]), "K").unwrap(), None);
    let error = env_bool(&vars(&[("K", " Maybe ")]), "K").unwrap_err();
    assert_eq!(error.full_text(), "K: expected a boolean, got 'maybe'");
}

#[test]
fn numbers_are_parsed_or_refused() {
    assert_eq!(env_parse::<u16>(&vars(&[("K", " +65535 ")]), "K").unwrap(), Some(65535));
    assert_eq!(env_parse::<u64>(&vars(&[("K", "18446744073709551615")]), "K").unwrap(), Some(u64::MAX));
    assert_eq!(
        env_parse::<u16>(&vars(&[("K", "65536")]), "K").unwrap_err().full_text(),
        "K: number too large to fit in target type"
    );
    assert_eq!(
        env_parse::<u64>(&vars(&[("K", "-1")]), "K").unwrap_err().full_text(),
        "K: invalid digit found in string"
    );
}

#[test]
fn payload_formats_have_names() {
    let (config, _) = applied(&[("REPUBLISHER_MQTT_PAYLOAD_FORMAT", "Envelope")]);
    assert_eq!(config.mqtt.payload_format, PayloadFormat::NetixEnvelope);
    let (config, _) = applied(&[("REPUBLISHER_MQTT_PAYLOAD_FORMAT", "scalar")]);
    assert_eq!(config.mqtt.payload_format, PayloadFormat::Scalar);
    let (_, error) = applied(&[("REPUBLISHER_MQTT_PAYLOAD_FORMAT", "XML")]);
    assert_eq!(
        error.unwrap_err().full_text(),
        "REPUBLISHER_MQTT_PAYLOAD_FORMAT: expected 'scalar' or 'netix_envelope', got 'xml'"
    );
}

#[test]
fn connection_json_is_merged_or_refused() {
    let mut config = self::config();
    config.protocol = "bacnet".to_string();
    let mut stored = Table::new();
    stored.insert("port".to_string(), Value::Number("1".to_string()));
    stored.insert("interface".to_string(), Value::Text("eth0".to_string()));
    config.set_connection(stored);
    let raw = r#"{"port": 47808, "name": "x", "none": null, "list": [1, "a"], "map": {"b": false}}"#;
    apply_env_overrides(&mut config, &vars(&[("REPUBLISHER_CONNECTION_JSON", raw)]), None, nothing()).unwrap();
    let connection = config.connection();
    let get = |key: &str| connection.get(&key.to_string()).map(|v| v.duplicate());
    assert!(matches!(get("port"), Some(Value::Number(n)) if n == "47808"));
    assert!(matches!(get("interface"), Some(Value::Text(t)) if t == "eth0"));
    assert!(matches!(get("name"), Some(Value::Text(t)) if t == "x"));
    assert!(matches!(get("none"), Some(Value::Null)));
    assert!(matches!(get("list"), Some(Value::Nested(t)) if t == "[1,\"a\"]"));
    assert!(matches!(get("map"), Some(Value::Nested(t)) if t == "{\"b\":false}"));

    let (_, error) = applied(&[("REPUBLISHER_PROTOCOL", "bacnet"), ("REPUBLISHER_CONNECTION_JSON", "[1]")]);
    let error = error.unwrap_err();
    assert_eq!(error.message, "REPUBLISHER_CONNECTION_JSON is not a JSON object");
    assert!(error.cause.unwrap().contains("invalid type"));

    let (_, error) = applied(&[("REPUBLISHER_CONNECTION_JSON", "{}")]);
    assert_eq!(
        error.unwrap_err().full_text(),
        "REPUBLISHER_CONNECTION_JSON requires REPUBLISHER_PROTOCOL (or a configured protocol)"
    );
}

#[test]
fn members_are_merged_in_order() {
    let mut config = self::config();
    config.protocol = "p".to_string();
    let mut notes = Vec::new();
    let members = vec![
        ("a".to_string(), Value::Bool(true)),
        ("a".to_string(), Value::Bool(false)),
    ];
    merge_connection(&mut config, &mut notes, Ok(members)).unwrap();
    assert!(matches!(config.connection().get(&"a".to_string()), Some(Value::Bool(false))));
    assert_eq!(notes, vec!["connection (env JSON merge)"]);
}

#[test]
fn bad_points_are_refused() {
    let mut config = self::config();
    let error = apply_env_overrides(
        &mut config,
        &vars(&[("REPUBLISHER_POINTS_JSON", "{}")]),
        None,
        import("{}"),
    )
    .unwrap_err();
    assert_eq!(error.message, "REPUBLISHER_POINTS_JSON is not a PointConfig array");
    assert!(error.cause.is_some());
}

#[test]
fn secrets_stay_out_of_notes() {
    let with = |password: &str, phrase: &str| {
        applied(&[
            ("REPUBLISHER_MQTT_HOST", "h"),
            ("REPUBLISHER_MQTT_PASSWORD", password),
            ("REPUBLISHER_MQTT_CLIENT_KEY_PASSPHRASE", phrase),
        ])
    };
    let (a, a_notes) = with(" first ", "one");
    let (b, b_notes) = with("second", "two");
    assert_eq!(a_notes.unwrap(), b_notes.unwrap());
    assert_eq!(a.mqtt.password.as_deref(), Some(" first "));
    assert_eq!(b.mqtt.client_key_passphrase.as_deref(), Some("two"));
}

#[test]
fn the_named_secret_is_resolved_on_the_settings_of_the_environment() {
    let env = vars(&[
        ("REPUBLISHER_MQTT_HOST", "h"),
        ("REPUBLISHER_MQTT_PASSWORD", "direct"),
        ("REPUBLISHER_MQTT_PASSWORD_ENV", "ELSEWHERE"),
        ("REPUBLISHER_MQTT_RETAIN", "on"),
    ]);
    let source = envcfg::secret_source(config(), &env).unwrap();
    assert_eq!(source.host, "h");
    assert_eq!(source.password.as_deref(), Some("direct"));
    assert_eq!(source.password_env.as_deref(), Some("ELSEWHERE"));
    assert!(!source.retain);
    assert!(envcfg::secret_source(config(), &vars(&[("REPUBLISHER_MQTT_HOST", "h")])).is_none());
    let bad = vars(&[
        ("REPUBLISHER_MQTT_PORT", "x"),
        ("REPUBLISHER_MQTT_PASSWORD_ENV", "ELSEWHERE"),
    ]);
    assert!(envcfg::secret_source(config(), &bad).is_none());
}
