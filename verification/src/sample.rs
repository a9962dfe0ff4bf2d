//! A sample configuration with the points of the BACnet simulator.

use vstd::prelude::*;
use vstd::string::*;

use crate::config;
use crate::config::AppConfig;
use crate::model;
use crate::model::{Addressing, PointConfig, Value};
use crate::table::Table;
use crate::text;
use crate::text::{decimal_text, starts_with};
use crate::web::api::Interface;

verus! {

/// A number as JSON.
pub open spec fn number(n: nat) -> model::ValueModel {
    model::ValueModel::Number(text::decimal(n))
}

/// A point that holds the present value of a BACnet object, read every ten seconds.
pub open spec fn bacnet(
    device_key: Seq<char>,
    device_instance: u32,
    object_type: Seq<char>,
    object_instance: u32,
    tag_path: Seq<char>,
) -> model::PointModel {
    model::PointModel {
        enabled: true,
        device_key,
        addressing: map![
            "device_instance"@ => number(device_instance as nat),
            "object_type"@ => model::ValueModel::Text(object_type),
            "object_instance"@ => number(object_instance as nat),
            "property"@ => model::ValueModel::Text("present_value"@),
        ],
        tag_path,
        poll_interval_secs: 10,
    }
}

/// A point that holds the present value of a BACnet object, read every ten seconds.
pub fn bacnet_point(
    device_key: &str,
    device_instance: u32,
    object_type: &str,
    object_instance: u32,
    tag_path: &str,
) -> (r: PointConfig)
    ensures
        r@ == bacnet(device_key@, device_instance, object_type@, object_instance, tag_path@),
{
    let mut addressing: Addressing = Table::new();
    addressing.insert(
        "device_instance".to_string(),
        Value::Number(decimal_text(device_instance as u64)),
    );
    addressing.insert("object_type".to_string(), Value::Text(object_type.to_string()));
    addressing.insert(
        "object_instance".to_string(),
        Value::Number(decimal_text(object_instance as u64)),
    );
    addressing.insert("property".to_string(), Value::Text("present_value".to_string()));
    PointConfig {
        enabled: true,
        device_key: device_key.to_string(),
        addressing,
        tag_path: tag_path.to_string(),
        poll_interval_secs: 10,
    }
}

/// The points of the simulator.
pub open spec fn simulated() -> Seq<model::PointModel> {
    seq![
        bacnet("AHU-L-001"@, 10700, "analog_input"@, 1, "AHU-L-001/SupplyAirTemp"@),
        bacnet("AHU-L-001"@, 10700, "analog_input"@, 2, "AHU-L-001/ReturnAirTemp"@),
        bacnet("AHU-L-001"@, 10700, "binary_input"@, 1, "AHU-L-001/SupplyFanStatus"@),
        bacnet("VAV-OFC-001"@, 10900, "analog_input"@, 1, "VAV-OFC-001/RoomTemp"@),
        bacnet("VAV-OFC-001"@, 10900, "analog_output"@, 1, "VAV-OFC-001/DamperPosition"@),
        bacnet("PLANT-MTR-001"@, 10600, "analog_input"@, 1, "PLANT-MTR-001/ActivePower"@),
        bacnet("PLANT-MTR-001"@, 10600, "analog_input"@, 9, "PLANT-MTR-001/TotalEnergy"@),
    ]
}

/// The points of the simulator.
pub fn simulator_points() -> (r: Vec<PointConfig>)
    ensures
        text::views(r@) == simulated(),
{
    let mut out: Vec<PointConfig> = Vec::new();
    out.push(bacnet_point("AHU-L-001", 10700, "analog_input", 1, "AHU-L-001/SupplyAirTemp"));
    out.push(bacnet_point("AHU-L-001", 10700, "analog_input", 2, "AHU-L-001/ReturnAirTemp"));
    out.push(bacnet_point("AHU-L-001", 10700, "binary_input", 1, "AHU-L-001/SupplyFanStatus"));
    out.push(bacnet_point("VAV-OFC-001", 10900, "analog_input", 1, "VAV-OFC-001/RoomTemp"));
    out.push(bacnet_point("VAV-OFC-001", 10900, "analog_output", 1, "VAV-OFC-001/DamperPosition"));
    out.push(bacnet_point("PLANT-MTR-001", 10600, "analog_input", 1, "PLANT-MTR-001/ActivePower"));
    out.push(bacnet_point("PLANT-MTR-001", 10600, "analog_input", 9, "PLANT-MTR-001/TotalEnergy"));
    assert(text::views(out@) =~= simulated());
    out
}

/// A network interface's name and address.
pub open spec fn named(s: Seq<Interface>) -> Seq<(Seq<char>, Seq<char>)> {
    Seq::new(s.len(), |i: int| (s[i].name@, s[i].addr@))
}

/// Whether an interface leads to the containers of this machine.
pub open spec fn is_bridge(name: Seq<char>) -> bool {
    text::begins(name, "bridge"@)
}

/// The first interface that is a bridge, counted from `from`.
pub open spec fn bridge_from(interfaces: Seq<(Seq<char>, Seq<char>)>, from: int) -> Option<int>
    decreases interfaces.len() - from,
{
    if from < 0 || from >= interfaces.len() {
        None
    } else if is_bridge(interfaces[from].0) {
        Some(from)
    } else {
        bridge_from(interfaces, from + 1)
    }
}

/// The interface to use: the first bridge, else the first one.
pub open spec fn preferred(interfaces: Seq<(Seq<char>, Seq<char>)>) -> Option<int> {
    match bridge_from(interfaces, 0) {
        Some(i) => Some(i),
        None => if interfaces.len() > 0 {
            Some(0int)
        } else {
            None
        },
    }
}

/// What is said of the choice.
pub open spec fn choice_note(interfaces: Seq<(Seq<char>, Seq<char>)>) -> Option<Seq<char>> {
    match preferred(interfaces) {
        None => None,
        Some(i) => {
            let (name, addr) = interfaces[i];
            if bridge_from(interfaces, 0) is Some {
                Some(
                    "Set bacnet interface to "@ + addr + " ("@ + name
                        + ") for Docker/OrbStack reachability"@,
                )
            } else {
                Some("No bridge NIC found; using first interface "@ + addr + " ("@ + name + ")"@)
            }
        },
    }
}

/// The connection settings for the simulator.
pub open spec fn simulator_connection(
    interfaces: Seq<(Seq<char>, Seq<char>)>,
) -> model::AddressingModel {
    let base = map![
        "discover_all_interfaces"@ => model::ValueModel::Bool(false),
        "port"@ => number(0),
        "broadcast_address"@ => model::ValueModel::Text("255.255.255.255"@),
        "bind_failure_policy"@ => model::ValueModel::Text("skip"@),
    ];
    match preferred(interfaces) {
        Some(i) => base.insert("interface"@, model::ValueModel::Text(interfaces[i].1)),
        None => base,
    }
}

/// The sample configuration: the defaults with the simulator's points and connection, and a broker
/// without encryption.
pub open spec fn sampled(
    defaults: config::ConfigModel,
    interfaces: Seq<(Seq<char>, Seq<char>)>,
) -> config::ConfigModel {
    config::ConfigModel {
        protocol: "bacnet"@,
        mqtt: config::MqttModel { use_tls: false, port: 1883, ..defaults.mqtt },
        points: simulated(),
        connections: defaults.connections.insert("bacnet"@, simulator_connection(interfaces)),
        ..defaults
    }
}

/// The sample configuration, and what is said of the choice of a network interface.
pub fn sample_config(defaults: AppConfig, interfaces: &Vec<Interface>) -> (r: (
    AppConfig,
    Option<String>,
))
    ensures
        r.0@ == sampled(defaults@, named(interfaces@)),
        text::opt(r.1) == choice_note(named(interfaces@)),
{
    let ghost listed = named(interfaces@);
    let mut config = defaults;
    config.protocol = "bacnet".to_string();
    config.mqtt.use_tls = false;
    config.mqtt.port = 1883;
    config.points = simulator_points();
    let mut bacnet: Addressing = Table::new();
    bacnet.insert("discover_all_interfaces".to_string(), Value::Bool(false));
    bacnet.insert("port".to_string(), Value::Number(decimal_text(0)));
    bacnet.insert("broadcast_address".to_string(), Value::Text("255.255.255.255".to_string()));
    bacnet.insert("bind_failure_policy".to_string(), Value::Text("skip".to_string()));
    let mut i: usize = 0;
    while i < interfaces.len() && !starts_with(&interfaces[i].name, "bridge")
        invariant
            i <= interfaces@.len(),
            listed == named(interfaces@),
            bridge_from(listed, 0) == bridge_from(listed, i as int),
        decreases interfaces@.len() - i,
    {
        i = i + 1;
    }
    let mut note: Option<String> = None;
    if i < interfaces.len() {
        let found = &interfaces[i];
        bacnet.insert("interface".to_string(), Value::Text(found.addr.clone()));
        let mut message = "Set bacnet interface to ".to_string();
        message.append(&found.addr);
        message.append(" (");
        message.append(&found.name);
        message.append(") for Docker/OrbStack reachability");
        note = Some(message);
    } else if interfaces.len() > 0 {
        let found = &interfaces[0];
        bacnet.insert("interface".to_string(), Value::Text(found.addr.clone()));
        let mut message = "No bridge NIC found; using first interface ".to_string();
        message.append(&found.addr);
        message.append(" (");
        message.append(&found.name);
        message.append(")");
        note = Some(message);
    }
    config.connections.insert("bacnet".to_string(), bacnet);
    (config, note)
}

/// What is said once the configuration was written.
pub open spec fn written_text(path: Seq<char>, points: nat) -> Seq<char> {
    "Wrote "@ + path + " with "@ + text::decimal(points) + " simulator point(s)"@
}

/// What is said once the configuration was written.
pub fn written_line(path: &str, config: &AppConfig) -> (r: String)
    ensures
        r@ == written_text(path@, config@.points.len()),
{
    let mut out = "Wrote ".to_string();
    out.append(path);
    out.append(" with ");
    out.append(&decimal_text(config.points.len() as u64));
    out.append(" simulator point(s)");
    out
}

} // verus!
