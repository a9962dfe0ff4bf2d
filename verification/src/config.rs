//! The daemon's configuration.

use vstd::prelude::*;

use crate::model;
use crate::model::{Addressing, PointConfig};
use crate::table::{duplicate_all, duplicate_opt, Duplicate, Table};
use crate::text;

verus! {

/// How a sample is written to MQTT.
#[derive(Debug, Clone, Copy, PartialEq, Eq, Structural)]
pub enum PayloadFormat {
    Scalar,
    NetixEnvelope,
}

/// The broker settings.
#[derive(Debug)]
pub struct MqttConfig {
    pub host: String,
    pub port: u16,
    pub use_tls: bool,
    pub client_id: String,
    pub topic_prefix: String,
    pub health_topic: String,
    pub username: Option<String>,
    pub password: Option<String>,
    pub password_env: Option<String>,
    pub ca_cert_path: Option<String>,
    pub client_cert_path: Option<String>,
    pub client_key_path: Option<String>,
    pub client_key_passphrase: Option<String>,
    pub remember_secrets: bool,
    pub retain: bool,
    pub keep_alive_secs: u64,
    pub payload_format: PayloadFormat,
    pub device_topic_prefix: String,
    pub autostart: bool,
}

/// What an [`MqttConfig`] stands for.
pub struct MqttModel {
    pub host: Seq<char>,
    pub port: u16,
    pub use_tls: bool,
    pub client_id: Seq<char>,
    pub topic_prefix: Seq<char>,
    pub health_topic: Seq<char>,
    pub username: Option<Seq<char>>,
    pub password: Option<Seq<char>>,
    pub password_env: Option<Seq<char>>,
    pub ca_cert_path: Option<Seq<char>>,
    pub client_cert_path: Option<Seq<char>>,
    pub client_key_path: Option<Seq<char>>,
    pub client_key_passphrase: Option<Seq<char>>,
    pub remember_secrets: bool,
    pub retain: bool,
    pub keep_alive_secs: u64,
    pub payload_format: PayloadFormat,
    pub device_topic_prefix: Seq<char>,
    pub autostart: bool,
}

impl View for MqttConfig {
    type V = MqttModel;

    open spec fn view(&self) -> MqttModel {
        MqttModel {
            host: self.host@,
            port: self.port,
            use_tls: self.use_tls,
            client_id: self.client_id@,
            topic_prefix: self.topic_prefix@,
            health_topic: self.health_topic@,
            username: text::opt(self.username),
            password: text::opt(self.password),
            password_env: text::opt(self.password_env),
            ca_cert_path: text::opt(self.ca_cert_path),
            client_cert_path: text::opt(self.client_cert_path),
            client_key_path: text::opt(self.client_key_path),
            client_key_passphrase: text::opt(self.client_key_passphrase),
            remember_secrets: self.remember_secrets,
            retain: self.retain,
            keep_alive_secs: self.keep_alive_secs,
            payload_format: self.payload_format,
            device_topic_prefix: self.device_topic_prefix@,
            autostart: self.autostart,
        }
    }
}

impl Duplicate for MqttConfig {
    fn duplicate(&self) -> (r: Self) {
        MqttConfig {
            host: self.host.clone(),
            port: self.port,
            use_tls: self.use_tls,
            client_id: self.client_id.clone(),
            topic_prefix: self.topic_prefix.clone(),
            health_topic: self.health_topic.clone(),
            username: duplicate_opt(&self.username),
            password: duplicate_opt(&self.password),
            password_env: duplicate_opt(&self.password_env),
            ca_cert_path: duplicate_opt(&self.ca_cert_path),
            client_cert_path: duplicate_opt(&self.client_cert_path),
            client_key_path: duplicate_opt(&self.client_key_path),
            client_key_passphrase: duplicate_opt(&self.client_key_passphrase),
            remember_secrets: self.remember_secrets,
            retain: self.retain,
            keep_alive_secs: self.keep_alive_secs,
            payload_format: self.payload_format,
            device_topic_prefix: self.device_topic_prefix.clone(),
            autostart: self.autostart,
        }
    }
}

/// The whole configuration. `connections` holds the connection settings of each protocol.
#[derive(Debug)]
pub struct AppConfig {
    pub protocol: String,
    pub mqtt: MqttConfig,
    pub connections: Table<String, Addressing>,
    pub points: Vec<PointConfig>,
    pub discover_on_start: bool,
    pub theme: String,
}

/// What an [`AppConfig`] stands for.
pub struct ConfigModel {
    pub protocol: Seq<char>,
    pub mqtt: MqttModel,
    pub connections: Map<Seq<char>, model::AddressingModel>,
    pub points: Seq<model::PointModel>,
    pub discover_on_start: bool,
    pub theme: Seq<char>,
}

impl View for AppConfig {
    type V = ConfigModel;

    open spec fn view(&self) -> ConfigModel {
        ConfigModel {
            protocol: self.protocol@,
            mqtt: self.mqtt@,
            connections: self.connections@,
            points: text::views(self.points@),
            discover_on_start: self.discover_on_start,
            theme: self.theme@,
        }
    }
}

impl Duplicate for AppConfig {
    fn duplicate(&self) -> (r: Self) {
        AppConfig {
            protocol: self.protocol.clone(),
            mqtt: self.mqtt.duplicate(),
            connections: self.connections.duplicate(),
            points: duplicate_all(&self.points),
            discover_on_start: self.discover_on_start,
            theme: self.theme.clone(),
        }
    }
}

/// The connection settings of the active protocol; none are set for a protocol not met before.
pub open spec fn connection_of(c: ConfigModel) -> model::AddressingModel {
    if c.connections.dom().contains(c.protocol) {
        c.connections[c.protocol]
    } else {
        Map::empty()
    }
}

impl AppConfig {
    /// The connection settings of the active protocol.
    pub fn connection(&self) -> (r: Addressing)
        ensures
            r@ == connection_of(self@),
    {
        match self.connections.get(&self.protocol) {
            Some(found) => found.duplicate(),
            None => Table::new(),
        }
    }

    /// Replaces the connection settings of the active protocol.
    pub fn set_connection(&mut self, settings: Addressing)
        ensures
            final(self)@ == (ConfigModel {
                connections: old(self)@.connections.insert(old(self)@.protocol, settings@),
                ..old(self)@
            }),
    {
        self.connections.insert(self.protocol.clone(), settings);
    }
}

} // verus!
