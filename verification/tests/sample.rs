use republisher::config::{AppConfig, MqttConfig, PayloadFormat};
use republisher::model::{PointConfig, Value};
use republisher::sample;
use republisher::table::Table;
use republisher::web::api::Interface;

fn defaults() -> AppConfig {
    AppConfig {
        protocol: String::new(),
        mqtt: MqttConfig {
            host: "localhost".to_string(),
            port: 8883,
            use_tls: true,
            client_id: "republisher".to_string(),
            topic_prefix: "netix".to_string(),
            health_topic: "netix/health".to_string(),
            username: None,
            password: None,
            password_env: None,
            ca_cert_path: None,
            client_cert_path: None,
            client_key_path: None,
            client_key_passphrase: None,
            remember_secrets: true,
            retain: false,
            keep_alive_secs: 30,
            payload_format: PayloadFormat::Scalar,
            device_topic_prefix: "devices".to_string(),
            autostart: false,
        },
        connections: Table::new(),
        points: Vec::new(),
        discover_on_start: false,
        theme: "dark".to_string(),
    }
}

fn interface(name: &str, addr: &str) -> Interface {
    Interface { name: name.to_string(), addr: addr.to_string() }
}

fn text(p: &PointConfig, key: &str) -> String {
    match p.addressing.get(&key.to_string()) {
        Some(Value::Text(t)) => t.clone(),
        Some(Value::Number(n)) => n.clone(),
        _ => panic!("no such value"),
    }
}

#[test]
fn the_simulators_points_are_complete() {
    let points = sample::simulator_points();
    assert_eq!(points.len(), 7);
    let p = &points[4];
    assert_eq!((p.device_key.as_str(), p.tag_path.as_str()), ("VAV-OFC-001", "VAV-OFC-001/DamperPosition"));
    assert_eq!(text(p, "device_instance"), "10900");
    assert_eq!(text(p, "object_type"), "analog_output");
    assert_eq!(text(p, "object_instance"), "1");
    assert_eq!(text(p, "property"), "present_value");
    assert!(p.enabled);
    assert_eq!(p.poll_interval_secs, 10);
}

#[test]
fn a_bridge_is_preferred() {
    let list = vec![
        interface("eth0", "10.0.0.2"),
        interface("bridge100", "192.168.64.1"),
        interface("bridge101", "192.168.65.1"),
    ];
    let (config, note) = sample::sample_config(defaults(), &list);
    assert_eq!(
        note.as_deref(),
        Some("Set bacnet interface to 192.168.64.1 (bridge100) for Docker/OrbStack reachability")
    );
    assert_eq!((config.protocol.as_str(), config.mqtt.port, config.mqtt.use_tls), ("bacnet", 1883, false));
    assert_eq!(config.mqtt.host, "localhost");
    assert!(matches!(
        config.connection().get(&"interface".to_string()),
        Some(Value::Text(t)) if t == "192.168.64.1"
    ));
    assert!(matches!(
        config.connection().get(&"port".to_string()),
        Some(Value::Number(n)) if n == "0"
    ));
    assert_eq!(
        sample::written_line("/c.toml", &config),
        "Wrote /c.toml with 7 simulator point(s)"
    );
}

#[test]
fn without_a_bridge_the_first_interface_serves() {
    let (config, note) = sample::sample_config(defaults(), &vec![interface("eth0", "10.0.0.2")]);
    assert_eq!(
        note.as_deref(),
        Some("No bridge NIC found; using first interface 10.0.0.2 (eth0)")
    );
    assert_eq!(config.connection().len(), 5);
    let (config, note) = sample::sample_config(defaults(), &vec![]);
    assert_eq!(note, None);
    assert_eq!(config.connection().len(), 4);
}
