use republisher::json::{Json, ToJson};
use republisher::model::{
    BrowseKind, Capabilities, DiscoveredDevice, DiscoveredPoint, DiscoveryKind, FieldKind,
    FieldSpec, PointIdentity, PointStatus, PointValue, RepublisherLifecycle, Value,
};
use republisher::table::Table;
use republisher::web::dto;

fn value(v: &Value) -> serde_json::Value {
    match v {
        Value::Null => serde_json::Value::Null,
        Value::Bool(b) => serde_json::Value::Bool(*b),
        Value::Text(s) => serde_json::Value::String(s.clone()),
        Value::Number(s) | Value::Nested(s) => serde_json::from_str(s).unwrap(),
    }
}

fn js(j: &Json) -> serde_json::Value {
    match j {
        Json::Null => serde_json::Value::Null,
        Json::Bool(b) => serde_json::Value::Bool(*b),
        Json::Uint(n) => serde_json::Value::from(*n),
        Json::Int(n) => serde_json::Value::from(*n),
        Json::Text(s) => serde_json::Value::String(s.clone()),
        Json::Value(v) => value(v),
        Json::List(items) => serde_json::Value::Array(items.iter().map(js).collect()),
        Json::Object(fields) => {
            serde_json::Value::Object(fields.iter().map(|(k, v)| (k.clone(), js(v))).collect())
        }
        Json::Config(_) => panic!("no configuration here"),
    }
}

fn shown<T: ToJson>(v: &T) -> String {
    js(&v.to_json()).to_string()
}

fn status() -> PointStatus {
    PointStatus {
        last_value: Some(PointValue { json: Value::Number("21.5".to_string()), display: "21.5".to_string() }),
        last_sample_ms: Some(-3),
        stale: false,
        consecutive_failures: 0,
        last_error: None,
        last_publish_error: None,
    }
}

#[test]
fn fields_show_only_what_they_have() {
    let choice = FieldSpec {
        key: "k".to_string(),
        label: "K".to_string(),
        kind: FieldKind::Enum(vec!["a".to_string(), "b".to_string()]),
        default: Some(Value::Text("a".to_string())),
        help: Some("h".to_string()),
    };
    assert_eq!(
        shown(&dto::FieldSpecDto::of(&choice)),
        r#"{"default":"a","help":"h","key":"k","kind":"enum","label":"K","options":["a","b"]}"#
    );
    for (kind, name) in [
        (FieldKind::Text, "text"),
        (FieldKind::U32, "u32"),
        (FieldKind::Bool, "bool"),
        (FieldKind::Secret, "secret"),
    ] {
        let spec = FieldSpec { key: "k".to_string(), label: "K".to_string(), kind, default: None, help: None };
        assert_eq!(
            js(&dto::FieldSpecDto::of(&spec).to_json()).to_string(),
            format!("{{\"key\":\"k\",\"kind\":\"{name}\",\"label\":\"K\"}}")
        );
    }
}

#[test]
fn adapters_are_described() {
    for (discovery, name, label) in [
        (DiscoveryKind::Broadcast, "broadcast", "Discover (broadcast)"),
        (DiscoveryKind::EndpointQuery, "endpoint_query", "Query endpoints"),
        (DiscoveryKind::SubnetScan, "subnet_scan", "Scan subnet"),
        (DiscoveryKind::ManualOnly, "manual", "Discover"),
    ] {
        for (browse, browse_name) in [
            (BrowseKind::ObjectList, "object_list"),
            (BrowseKind::AddressSpace, "address_space"),
            (BrowseKind::RegisterScan, "register_scan"),
            (BrowseKind::NotOffered, "none"),
        ] {
            let caps = Capabilities {
                id: "i".to_string(),
                display_name: "I".to_string(),
                discovery,
                browse,
                connection_fields: vec![],
                addressing_fields: vec![],
                default_port: 502,
            };
            assert_eq!(
                shown(&dto::CapabilitiesDto::of(&caps)),
                format!(
                    "{{\"addressing_fields\":[],\"browse\":\"{browse_name}\",\"connection_fields\":[],\"default_port\":502,\"discovery\":\"{name}\",\"discovery_label\":\"{label}\",\"display_name\":\"I\",\"id\":\"i\"}}"
                )
            );
        }
    }
}

#[test]
fn devices_and_browsed_points_show_what_they_have() {
    let device = DiscoveredDevice {
        key: "k".to_string(),
        instance: None,
        address: "a".to_string(),
        detail: "d".to_string(),
    };
    assert_eq!(
        shown(&dto::device_dto(3, &device)),
        r#"{"address":"a","detail":"d","index":3,"key":"k"}"#
    );
    let mut addressing = Table::new();
    addressing.insert("n".to_string(), Value::Number("5".to_string()));
    let point = DiscoveredPoint {
        device_key: "D".to_string(),
        name: Some("N".to_string()),
        description: None,
        units: None,
        value: Some(PointValue { json: Value::Bool(true), display: "true".to_string() }),
        addressing,
        rendered: vec![("n".to_string(), "5".to_string()), ("m".to_string(), "6".to_string())],
        suggested_tag_path: "D/N".to_string(),
    };
    assert_eq!(
        shown(&dto::browsed_dto(1, &point)),
        r#"{"addressing":{"n":5},"addressing_display":"n=5 m=6","device_key":"D","index":1,"name":"N","suggested_tag_path":"D/N","value":true,"value_display":"true"}"#
    );
}

#[test]
fn a_key_is_the_addressing_alone() {
    let mut identity = PointIdentity {
        device_key: "D".to_string(),
        addressing: vec![("a".to_string(), "1".to_string()), ("b".to_string(), "2".to_string())],
    };
    assert_eq!(dto::identity_key(&identity), "a=1,b=2");
    identity.device_key = "E".to_string();
    assert_eq!(dto::identity_key(&identity), "a=1,b=2");
    assert_eq!(dto::addressing_display(&identity.addressing), "a=1 b=2");
}

#[test]
fn a_status_names_its_gravest_trouble() {
    assert_eq!(
        shown(&dto::status_dto(None)),
        r#"{"consecutive_failures":0,"stale":true,"state":"unknown"}"#
    );
    let mut s = status();
    assert_eq!(
        shown(&dto::status_dto(Some(&s))),
        r#"{"consecutive_failures":0,"last_sample_ms":-3,"last_value":21.5,"last_value_display":"21.5","stale":false,"state":"ok"}"#
    );
    s.stale = true;
    assert_eq!(dto::status_dto(Some(&s)).state, "stale");
    s.last_error = Some("e".to_string());
    assert_eq!(dto::status_dto(Some(&s)).state, "read_error");
    s.last_publish_error = Some("p".to_string());
    assert_eq!(dto::status_dto(Some(&s)).state, "publish_error");
}

#[test]
fn lifecycles_have_names() {
    for (lifecycle, text) in [
        (RepublisherLifecycle::Starting, r#"{"error":null,"state":"starting"}"#),
        (RepublisherLifecycle::Running, r#"{"error":null,"state":"running"}"#),
        (RepublisherLifecycle::Stopping, r#"{"error":null,"state":"stopping"}"#),
        (RepublisherLifecycle::Stopped, r#"{"error":null,"state":"stopped"}"#),
        (RepublisherLifecycle::Failed("x".to_string()), r#"{"error":"x","state":"failed"}"#),
    ] {
        assert_eq!(js(&dto::lifecycle_dto(&lifecycle)).to_string(), text);
    }
}
