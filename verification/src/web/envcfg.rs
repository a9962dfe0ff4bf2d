//! Configuration from the environment. Every setting that a deployment needs can come from a
//! `REPUBLISHER_*` variable; a variable that is set to more than white space wins over the stored
//! configuration at every start.

use vstd::prelude::*;
use vstd::string::*;

use crate::config;
use crate::config::{AppConfig, MqttConfig, PayloadFormat};
use crate::error;
use crate::error::BootError;
use crate::model;
use crate::model::{Addressing, PointConfig, Value};
use crate::text;
use crate::text::{decimal_text, lower, parse_u16, parse_u64, same, trim};
use crate::web::auth;
use crate::web::auth::{env_var, EnvVars};
use crate::web::dto;

verus! {

/// The variables that are set.
pub type Vars = Map<Seq<char>, Seq<char>>;

/// The value of a variable that is set to more than white space.
pub open spec fn setting(vars: Vars, key: Seq<char>) -> Option<Seq<char>> {
    match auth::var(vars, key) {
        Some(v) => if text::trimmed(v).len() > 0 {
            Some(v)
        } else {
            None
        },
        None => None,
    }
}

/// The value of a variable that is set to more than white space.
pub fn env(vars: &EnvVars, key: &str) -> (r: Option<String>)
    ensures
        text::opt(r) == setting(vars@, key@),
{
    match env_var(vars, key) {
        Some(v) => if trim(&v).is_empty() {
            None
        } else {
            Some(v)
        },
        None => None,
    }
}

/// How a setting is read where case and surrounding white space do not count.
pub open spec fn folded(raw: Seq<char>) -> Seq<char> {
    text::lowered(text::trimmed(raw))
}

/// The truth value that a text stands for.
pub open spec fn truth(raw: Seq<char>) -> Option<bool> {
    let s = folded(raw);
    if s == "1"@ || s == "true"@ || s == "yes"@ || s == "on"@ {
        Some(true)
    } else if s == "0"@ || s == "false"@ || s == "no"@ || s == "off"@ {
        Some(false)
    } else {
        None
    }
}

/// What is said of a setting that should be a truth value and is not.
pub open spec fn not_a_boolean(key: Seq<char>, raw: Seq<char>) -> error::BootErrorModel {
    error::plain(key + ": expected a boolean, got '"@ + folded(raw) + "'"@)
}

/// A setting that is a truth value.
pub open spec fn bool_setting(vars: Vars, key: Seq<char>) -> Result<
    Option<bool>,
    error::BootErrorModel,
> {
    match setting(vars, key) {
        None => Ok(None),
        Some(raw) => match truth(raw) {
            Some(b) => Ok(Some(b)),
            None => Err(not_a_boolean(key, raw)),
        },
    }
}

/// The view of a result with an error.
pub open spec fn outcome<T>(r: Result<T, BootError>) -> Result<T, error::BootErrorModel> {
    match r {
        Ok(v) => Ok(v),
        Err(e) => Err(e@),
    }
}

/// A setting that is a truth value.
pub fn env_bool(vars: &EnvVars, key: &str) -> (r: Result<Option<bool>, BootError>)
    ensures
        outcome(r) == bool_setting(vars@, key@),
{
    match env(vars, key) {
        None => Ok(None),
        Some(raw) => {
            let s = lower(trim(&raw));
            if same(&s, "1") || same(&s, "true") || same(&s, "yes") || same(&s, "on") {
                Ok(Some(true))
            } else if same(&s, "0") || same(&s, "false") || same(&s, "no") || same(&s, "off") {
                Ok(Some(false))
            } else {
                let mut message = key.to_string();
                message.append(": expected a boolean, got '");
                message.append(&s);
                message.append("'");
                Err(BootError::new(message))
            }
        },
    }
}

/// A number that a setting can be.
pub trait EnvNumber: Sized {
    /// The number that a text stands for.
    spec fn parsed(s: Seq<char>) -> Option<Self>;

    /// What is said of a text that stands for none.
    spec fn complaint(s: Seq<char>) -> Seq<char>;

    /// The number that a text stands for, or what is said of it.
    fn parse_text(s: &str) -> (r: Result<Self, String>)
        ensures
            match r {
                Ok(n) => Self::parsed(s@) == Some(n),
                Err(e) => Self::parsed(s@) is None && e@ == Self::complaint(s@),
            },
    ;
}

impl EnvNumber for u16 {
    open spec fn parsed(s: Seq<char>) -> Option<u16> {
        match text::number(s, u16::MAX as nat) {
            Some(n) => Some(n as u16),
            None => None,
        }
    }

    open spec fn complaint(s: Seq<char>) -> Seq<char> {
        text::u16_parse_error(s)
    }

    fn parse_text(s: &str) -> (r: Result<u16, String>) {
        parse_u16(s)
    }
}

impl EnvNumber for u64 {
    open spec fn parsed(s: Seq<char>) -> Option<u64> {
        match text::number(s, u64::MAX as nat) {
            Some(n) => Some(n as u64),
            None => None,
        }
    }

    open spec fn complaint(s: Seq<char>) -> Seq<char> {
        text::u64_parse_error(s)
    }

    fn parse_text(s: &str) -> (r: Result<u64, String>) {
        parse_u64(s)
    }
}

/// A setting that is a number.
pub open spec fn number_setting<T: EnvNumber>(vars: Vars, key: Seq<char>) -> Result<
    Option<T>,
    error::BootErrorModel,
> {
    match setting(vars, key) {
        None => Ok(None),
        Some(raw) => match T::parsed(text::trimmed(raw)) {
            Some(n) => Ok(Some(n)),
            None => Err(error::plain(key + ": "@ + T::complaint(text::trimmed(raw)))),
        },
    }
}

/// A setting that is a number.
pub fn env_parse<T: EnvNumber>(vars: &EnvVars, key: &str) -> (r: Result<Option<T>, BootError>)
    ensures
        outcome(r) == number_setting::<T>(vars@, key@),
{
    match env(vars, key) {
        None => Ok(None),
        Some(raw) => match T::parse_text(trim(&raw)) {
            Ok(n) => Ok(Some(n)),
            Err(e) => {
                let mut message = key.to_string();
                message.append(": ");
                message.append(&e);
                Err(BootError::new(message))
            },
        },
    }
}

/// How far the environment has been applied: the configuration so far, what was noted, and why it
/// went no further.
pub struct Run {
    pub config: config::ConfigModel,
    pub notes: Seq<Seq<char>>,
    pub failed: Option<error::BootErrorModel>,
}

/// A run that was not stopped.
pub open spec fn going(config: config::ConfigModel, notes: Seq<Seq<char>>) -> Run {
    Run { config, notes, failed: None }
}

/// A new configuration and a note on it.
pub open spec fn noted(r: Run, config: config::ConfigModel, note: Seq<char>) -> Run {
    going(config, r.notes.push(note))
}

/// A run that stopped.
pub open spec fn stopped(r: Run, e: error::BootErrorModel) -> Run {
    Run { failed: Some(e), ..r }
}

/// Where a run stands after a step with this outcome.
pub open spec fn after<T>(
    config: config::ConfigModel,
    notes: Seq<String>,
    r: Result<T, BootError>,
) -> Run {
    Run {
        config,
        notes: text::views(notes),
        failed: match r {
            Ok(_) => None,
            Err(e) => Some(e@),
        },
    }
}

/// Adds a note.
fn add_note(notes: &mut Vec<String>, note: String)
    ensures
        text::views(final(notes)@) == text::views(old(notes)@).push(note@),
{
    let ghost before = notes@;
    notes.push(note);
    assert(text::views(notes@) =~= text::views(before).push(note@));
}

/// The settings that are text and are taken as they are.
#[derive(Debug, Clone, Copy, PartialEq, Eq, Structural)]
pub enum TextSetting {
    Host,
    ClientId,
    TopicPrefix,
    HealthTopic,
    Username,
    Password,
    CaCert,
    ClientCert,
    ClientKey,
    ClientKeyPassphrase,
    DeviceTopicPrefix,
}

/// The variable of a setting.
pub open spec fn text_var(s: TextSetting) -> Seq<char> {
    match s {
        TextSetting::Host => "REPUBLISHER_MQTT_HOST"@,
        TextSetting::ClientId => "REPUBLISHER_MQTT_CLIENT_ID"@,
        TextSetting::TopicPrefix => "REPUBLISHER_MQTT_TOPIC_PREFIX"@,
        TextSetting::HealthTopic => "REPUBLISHER_MQTT_HEALTH_TOPIC"@,
        TextSetting::Username => "REPUBLISHER_MQTT_USERNAME"@,
        TextSetting::Password => "REPUBLISHER_MQTT_PASSWORD"@,
        TextSetting::CaCert => "REPUBLISHER_MQTT_CA_CERT"@,
        TextSetting::ClientCert => "REPUBLISHER_MQTT_CLIENT_CERT"@,
        TextSetting::ClientKey => "REPUBLISHER_MQTT_CLIENT_KEY"@,
        TextSetting::ClientKeyPassphrase => "REPUBLISHER_MQTT_CLIENT_KEY_PASSPHRASE"@,
        TextSetting::DeviceTopicPrefix => "REPUBLISHER_MQTT_DEVICE_TOPIC_PREFIX"@,
    }
}

/// The note on a setting.
pub open spec fn text_note(s: TextSetting) -> Seq<char> {
    match s {
        TextSetting::Host => "mqtt.host (env)"@,
        TextSetting::ClientId => "mqtt.client_id (env)"@,
        TextSetting::TopicPrefix => "mqtt.topic_prefix (env)"@,
        TextSetting::HealthTopic => "mqtt.health_topic (env)"@,
        TextSetting::Username => "mqtt.username (env)"@,
        TextSetting::Password => "mqtt.password (env)"@,
        TextSetting::CaCert => "mqtt.ca_cert_path (env)"@,
        TextSetting::ClientCert => "mqtt.client_cert_path (env)"@,
        TextSetting::ClientKey => "mqtt.client_key_path (env)"@,
        TextSetting::ClientKeyPassphrase => "mqtt.client_key_passphrase (env)"@,
        TextSetting::DeviceTopicPrefix => "mqtt.device_topic_prefix (env)"@,
    }
}

/// The broker settings with one of them changed.
pub open spec fn with_text(m: config::MqttModel, s: TextSetting, v: Seq<char>) -> config::MqttModel {
    match s {
        TextSetting::Host => config::MqttModel { host: v, ..m },
        TextSetting::ClientId => config::MqttModel { client_id: v, ..m },
        TextSetting::TopicPrefix => config::MqttModel { topic_prefix: v, ..m },
        TextSetting::HealthTopic => config::MqttModel { health_topic: v, ..m },
        TextSetting::Username => config::MqttModel { username: Some(v), ..m },
        TextSetting::Password => config::MqttModel { password: Some(v), ..m },
        TextSetting::CaCert => config::MqttModel { ca_cert_path: Some(v), ..m },
        TextSetting::ClientCert => config::MqttModel { client_cert_path: Some(v), ..m },
        TextSetting::ClientKey => config::MqttModel { client_key_path: Some(v), ..m },
        TextSetting::ClientKeyPassphrase => config::MqttModel { client_key_passphrase: Some(v), ..m },
        TextSetting::DeviceTopicPrefix => config::MqttModel { device_topic_prefix: v, ..m },
    }
}

/// A configuration with other broker settings.
pub open spec fn with_mqtt(c: config::ConfigModel, m: config::MqttModel) -> config::ConfigModel {
    config::ConfigModel { mqtt: m, ..c }
}

/// Applies one text setting.
#[verifier::opaque]
pub open spec fn text_step(r: Run, vars: Vars, s: TextSetting) -> Run {
    if r.failed is Some {
        r
    } else {
        match setting(vars, text_var(s)) {
            None => r,
            Some(v) => noted(r, with_mqtt(r.config, with_text(r.config.mqtt, s, v)), text_note(s)),
        }
    }
}

/// Applies one text setting.
fn apply_text(config: &mut AppConfig, notes: &mut Vec<String>, vars: &EnvVars, s: TextSetting)
    ensures
        going(final(config)@, text::views(final(notes)@)) == text_step(
            going(old(config)@, text::views(old(notes)@)),
            vars@,
            s,
        ),
{
    reveal(text_step);
    let (name, note): (&'static str, &'static str) = match s {
        TextSetting::Host => ("REPUBLISHER_MQTT_HOST", "mqtt.host (env)"),
        TextSetting::ClientId => ("REPUBLISHER_MQTT_CLIENT_ID", "mqtt.client_id (env)"),
        TextSetting::TopicPrefix => ("REPUBLISHER_MQTT_TOPIC_PREFIX", "mqtt.topic_prefix (env)"),
        TextSetting::HealthTopic => ("REPUBLISHER_MQTT_HEALTH_TOPIC", "mqtt.health_topic (env)"),
        TextSetting::Username => ("REPUBLISHER_MQTT_USERNAME", "mqtt.username (env)"),
        TextSetting::Password => ("REPUBLISHER_MQTT_PASSWORD", "mqtt.password (env)"),
        TextSetting::CaCert => ("REPUBLISHER_MQTT_CA_CERT", "mqtt.ca_cert_path (env)"),
        TextSetting::ClientCert => ("REPUBLISHER_MQTT_CLIENT_CERT", "mqtt.client_cert_path (env)"),
        TextSetting::ClientKey => ("REPUBLISHER_MQTT_CLIENT_KEY", "mqtt.client_key_path (env)"),
        TextSetting::ClientKeyPassphrase => (
            "REPUBLISHER_MQTT_CLIENT_KEY_PASSPHRASE",
            "mqtt.client_key_passphrase (env)",
        ),
        TextSetting::DeviceTopicPrefix => (
            "REPUBLISHER_MQTT_DEVICE_TOPIC_PREFIX",
            "mqtt.device_topic_prefix (env)",
        ),
    };
    match env(vars, name) {
        None => {},
        Some(v) => {
            match s {
                TextSetting::Host => config.mqtt.host = v,
                TextSetting::ClientId => config.mqtt.client_id = v,
                TextSetting::TopicPrefix => config.mqtt.topic_prefix = v,
                TextSetting::HealthTopic => config.mqtt.health_topic = v,
                TextSetting::Username => config.mqtt.username = Some(v),
                TextSetting::Password => config.mqtt.password = Some(v),
                TextSetting::CaCert => config.mqtt.ca_cert_path = Some(v),
                TextSetting::ClientCert => config.mqtt.client_cert_path = Some(v),
                TextSetting::ClientKey => config.mqtt.client_key_path = Some(v),
                TextSetting::ClientKeyPassphrase => config.mqtt.client_key_passphrase = Some(v),
                TextSetting::DeviceTopicPrefix => config.mqtt.device_topic_prefix = v,
            }
            add_note(notes, note.to_string());
        },
    }
}

/// The settings that are truth values.
#[derive(Debug, Clone, Copy, PartialEq, Eq, Structural)]
pub enum FlagSetting {
    Tls,
    Retain,
    Autostart,
    DiscoverOnStart,
}

/// The variable of a setting.
pub open spec fn flag_var(s: FlagSetting) -> Seq<char> {
    match s {
        FlagSetting::Tls => "REPUBLISHER_MQTT_TLS"@,
        FlagSetting::Retain => "REPUBLISHER_MQTT_RETAIN"@,
        FlagSetting::Autostart => "REPUBLISHER_AUTOSTART"@,
        FlagSetting::DiscoverOnStart => "REPUBLISHER_DISCOVER_ON_START"@,
    }
}

/// A truth value as text.
pub open spec fn bool_text(b: bool) -> Seq<char> {
    if b {
        "true"@
    } else {
        "false"@
    }
}

/// The note on a setting.
pub open spec fn flag_note(s: FlagSetting, b: bool) -> Seq<char> {
    match s {
        FlagSetting::Tls => "mqtt.use_tls (env)"@,
        FlagSetting::Retain => "mqtt.retain (env)"@,
        FlagSetting::Autostart => "mqtt.autostart = "@ + bool_text(b) + " (env)"@,
        FlagSetting::DiscoverOnStart => "discover_on_start = "@ + bool_text(b) + " (env)"@,
    }
}

/// The configuration with one setting changed.
pub open spec fn with_flag(c: config::ConfigModel, s: FlagSetting, b: bool) -> config::ConfigModel {
    match s {
        FlagSetting::Tls => with_mqtt(c, config::MqttModel { use_tls: b, ..c.mqtt }),
        FlagSetting::Retain => with_mqtt(c, config::MqttModel { retain: b, ..c.mqtt }),
        FlagSetting::Autostart => with_mqtt(c, config::MqttModel { autostart: b, ..c.mqtt }),
        FlagSetting::DiscoverOnStart => config::ConfigModel { discover_on_start: b, ..c },
    }
}

/// Applies one truth value.
#[verifier::opaque]
pub open spec fn flag_step(r: Run, vars: Vars, s: FlagSetting) -> Run {
    if r.failed is Some {
        r
    } else {
        match bool_setting(vars, flag_var(s)) {
            Ok(None) => r,
            Ok(Some(b)) => noted(r, with_flag(r.config, s, b), flag_note(s, b)),
            Err(e) => stopped(r, e),
        }
    }
}

/// Applies one truth value.
fn apply_flag(
    config: &mut AppConfig,
    notes: &mut Vec<String>,
    vars: &EnvVars,
    s: FlagSetting,
) -> (r: Result<(), BootError>)
    ensures
        after(final(config)@, final(notes)@, r) == flag_step(
            going(old(config)@, text::views(old(notes)@)),
            vars@,
            s,
        ),
{
    reveal(flag_step);
    let name: &'static str = match s {
        FlagSetting::Tls => "REPUBLISHER_MQTT_TLS",
        FlagSetting::Retain => "REPUBLISHER_MQTT_RETAIN",
        FlagSetting::Autostart => "REPUBLISHER_AUTOSTART",
        FlagSetting::DiscoverOnStart => "REPUBLISHER_DISCOVER_ON_START",
    };
    match env_bool(vars, name) {
        Err(e) => Err(e),
        Ok(None) => Ok(()),
        Ok(Some(b)) => {
            let shown: &'static str = if b {
                "true"
            } else {
                "false"
            };
            match s {
                FlagSetting::Tls => {
                    config.mqtt.use_tls = b;
                    add_note(notes, "mqtt.use_tls (env)".to_string());
                },
                FlagSetting::Retain => {
                    config.mqtt.retain = b;
                    add_note(notes, "mqtt.retain (env)".to_string());
                },
                FlagSetting::Autostart => {
                    config.mqtt.autostart = b;
                    let mut note = "mqtt.autostart = ".to_string();
                    note.append(shown);
                    note.append(" (env)");
                    add_note(notes, note);
                },
                FlagSetting::DiscoverOnStart => {
                    config.discover_on_start = b;
                    let mut note = "discover_on_start = ".to_string();
                    note.append(shown);
                    note.append(" (env)");
                    add_note(notes, note);
                },
            }
            Ok(())
        },
    }
}

/// Applies the active protocol, without surrounding white space.
#[verifier::opaque]
pub open spec fn protocol_step(r: Run, vars: Vars) -> Run {
    if r.failed is Some {
        r
    } else {
        match setting(vars, "REPUBLISHER_PROTOCOL"@) {
            None => r,
            Some(v) => noted(
                r,
                config::ConfigModel { protocol: text::trimmed(v), ..r.config },
                "protocol = "@ + text::trimmed(v) + " (env)"@,
            ),
        }
    }
}

/// Applies the active protocol.
fn apply_protocol(config: &mut AppConfig, notes: &mut Vec<String>, vars: &EnvVars)
    ensures
        going(final(config)@, text::views(final(notes)@)) == protocol_step(
            going(old(config)@, text::views(old(notes)@)),
            vars@,
        ),
{
    reveal(protocol_step);
    match env(vars, "REPUBLISHER_PROTOCOL") {
        None => {},
        Some(v) => {
            config.protocol = trim(&v).to_string();
            let mut note = "protocol = ".to_string();
            note.append(&config.protocol);
            note.append(" (env)");
            add_note(notes, note);
        },
    }
}

/// Applies the broker's port.
#[verifier::opaque]
pub open spec fn port_step(r: Run, vars: Vars) -> Run {
    if r.failed is Some {
        r
    } else {
        match number_setting::<u16>(vars, "REPUBLISHER_MQTT_PORT"@) {
            Ok(None) => r,
            Ok(Some(n)) => noted(
                r,
                with_mqtt(r.config, config::MqttModel { port: n, ..r.config.mqtt }),
                "mqtt.port (env)"@,
            ),
            Err(e) => stopped(r, e),
        }
    }
}

/// Applies the broker's port.
fn apply_port(config: &mut AppConfig, notes: &mut Vec<String>, vars: &EnvVars) -> (r: Result<
    (),
    BootError,
>)
    ensures
        after(final(config)@, final(notes)@, r) == port_step(
            going(old(config)@, text::views(old(notes)@)),
            vars@,
        ),
{
    reveal(port_step);
    match env_parse::<u16>(vars, "REPUBLISHER_MQTT_PORT") {
        Err(e) => Err(e),
        Ok(None) => Ok(()),
        Ok(Some(n)) => {
            config.mqtt.port = n;
            add_note(notes, "mqtt.port (env)".to_string());
            Ok(())
        },
    }
}

/// A keep-alive of at least one second.
pub open spec fn at_least_one(n: u64) -> u64 {
    if n < 1 {
        1
    } else {
        n
    }
}

/// Applies the keep-alive, which is at least one second.
#[verifier::opaque]
pub open spec fn keep_alive_step(r: Run, vars: Vars) -> Run {
    if r.failed is Some {
        r
    } else {
        match number_setting::<u64>(vars, "REPUBLISHER_MQTT_KEEP_ALIVE_SECS"@) {
            Ok(None) => r,
            Ok(Some(n)) => noted(
                r,
                with_mqtt(
                    r.config,
                    config::MqttModel { keep_alive_secs: at_least_one(n), ..r.config.mqtt },
                ),
                "mqtt.keep_alive_secs (env)"@,
            ),
            Err(e) => stopped(r, e),
        }
    }
}

/// Applies the keep-alive.
fn apply_keep_alive(config: &mut AppConfig, notes: &mut Vec<String>, vars: &EnvVars) -> (r: Result<
    (),
    BootError,
>)
    ensures
        after(final(config)@, final(notes)@, r) == keep_alive_step(
            going(old(config)@, text::views(old(notes)@)),
            vars@,
        ),
{
    reveal(keep_alive_step);
    match env_parse::<u64>(vars, "REPUBLISHER_MQTT_KEEP_ALIVE_SECS") {
        Err(e) => Err(e),
        Ok(None) => Ok(()),
        Ok(Some(n)) => {
            config.mqtt.keep_alive_secs = if n < 1 {
                1
            } else {
                n
            };
            add_note(notes, "mqtt.keep_alive_secs (env)".to_string());
            Ok(())
        },
    }
}

/// The payload format that a text names.
pub open spec fn named_format(raw: Seq<char>) -> Option<PayloadFormat> {
    let s = folded(raw);
    if s == "scalar"@ {
        Some(PayloadFormat::Scalar)
    } else if s == "netix_envelope"@ || s == "envelope"@ {
        Some(PayloadFormat::NetixEnvelope)
    } else {
        None
    }
}

/// Applies the payload format.
#[verifier::opaque]
pub open spec fn format_step(r: Run, vars: Vars) -> Run {
    if r.failed is Some {
        r
    } else {
        match setting(vars, "REPUBLISHER_MQTT_PAYLOAD_FORMAT"@) {
            None => r,
            Some(raw) => match named_format(raw) {
                Some(f) => noted(
                    r,
                    with_mqtt(r.config, config::MqttModel { payload_format: f, ..r.config.mqtt }),
                    "mqtt.payload_format (env)"@,
                ),
                None => stopped(
                    r,
                    error::plain(
                        "REPUBLISHER_MQTT_PAYLOAD_FORMAT: expected 'scalar' or 'netix_envelope', got '"@
                            + folded(raw) + "'"@,
                    ),
                ),
            },
        }
    }
}

/// Applies the payload format.
fn apply_format(config: &mut AppConfig, notes: &mut Vec<String>, vars: &EnvVars) -> (r: Result<
    (),
    BootError,
>)
    ensures
        after(final(config)@, final(notes)@, r) == format_step(
            going(old(config)@, text::views(old(notes)@)),
            vars@,
        ),
{
    reveal(format_step);
    match env(vars, "REPUBLISHER_MQTT_PAYLOAD_FORMAT") {
        None => Ok(()),
        Some(raw) => {
            let s = lower(trim(&raw));
            if same(&s, "scalar") {
                config.mqtt.payload_format = PayloadFormat::Scalar;
            } else if same(&s, "netix_envelope") || same(&s, "envelope") {
                config.mqtt.payload_format = PayloadFormat::NetixEnvelope;
            } else {
                let mut message =
                    "REPUBLISHER_MQTT_PAYLOAD_FORMAT: expected 'scalar' or 'netix_envelope', got '".to_string();
                message.append(&s);
                message.append("'");
                return Err(BootError::new(message));
            }
            add_note(notes, "mqtt.payload_format (env)".to_string());
            Ok(())
        },
    }
}

/// Applies the variable that names the one which holds the broker's password. `secret` is what
/// was found there.
pub open spec fn password_env_step(r: Run, vars: Vars, secret: Option<Seq<char>>) -> Run {
    if r.failed is Some {
        r
    } else {
        match setting(vars, "REPUBLISHER_MQTT_PASSWORD_ENV"@) {
            None => r,
            Some(v) => {
                let named = config::MqttModel { password_env: Some(v), ..r.config.mqtt };
                match secret {
                    Some(s) => noted(
                        r,
                        with_mqtt(r.config, config::MqttModel { password: Some(s), ..named }),
                        "mqtt.password (via $"@ + v + ")"@,
                    ),
                    None => noted(
                        r,
                        with_mqtt(r.config, named),
                        "mqtt.password_env = "@ + v + " (env, unresolved)"@,
                    ),
                }
            },
        }
    }
}

/// Applies the variable that names the one which holds the broker's password.
fn apply_password_env(
    config: &mut AppConfig,
    notes: &mut Vec<String>,
    vars: &EnvVars,
    secret: Option<String>,
)
    ensures
        going(final(config)@, text::views(final(notes)@)) == password_env_step(
            going(old(config)@, text::views(old(notes)@)),
            vars@,
            text::opt(secret),
        ),
{
    match env(vars, "REPUBLISHER_MQTT_PASSWORD_ENV") {
        None => {},
        Some(v) => {
            config.mqtt.password_env = Some(v.clone());
            match secret {
                Some(s) => {
                    config.mqtt.password = Some(s);
                    let mut note = "mqtt.password (via $".to_string();
                    note.append(&v);
                    note.append(")");
                    add_note(notes, note);
                },
                None => {
                    let mut note = "mqtt.password_env = ".to_string();
                    note.append(&v);
                    note.append(" (env, unresolved)");
                    add_note(notes, note);
                },
            }
        },
    }
}

/// What `serde_json::from_str` makes of a text that should be a JSON object: its members in the
/// object's order, or what it objects to.
pub uninterp spec fn parsed_object(raw: Seq<char>) -> Result<
    Seq<(Seq<char>, model::ValueModel)>,
    Seq<char>,
>;

/// The views of named values.
pub open spec fn member_views(s: Seq<(String, Value)>) -> Seq<(Seq<char>, model::ValueModel)> {
    Seq::new(s.len(), |i: int| (s[i].0@, s[i].1@))
}

/// The view of a parsed object.
pub open spec fn parse_view(r: Result<Vec<(String, Value)>, String>) -> Result<
    Seq<(Seq<char>, model::ValueModel)>,
    Seq<char>,
> {
    match r {
        Ok(members) => Ok(member_views(members@)),
        Err(e) => Err(e@),
    }
}

/// `serde_json::from_str` into a `serde_json::Map`: its members, each value by its kind, or the
/// text of the error. The result depends on `raw` alone; the grammar of JSON is not stated.
#[verifier::external_body]
fn parse_object(raw: &str) -> (r: Result<Vec<(String, Value)>, String>)
    ensures
        parse_view(r) == parsed_object(raw@),
{
    let parsed = serde_json::from_str::<serde_json::Map<String, serde_json::Value>>(raw);
    parsed.map_err(|e| e.to_string()).map(|object| object.into_iter().map(|(key, value)| {
        (key, match value {
            serde_json::Value::Null => Value::Null,
            serde_json::Value::Bool(b) => Value::Bool(b),
            serde_json::Value::Number(n) => Value::Number(n.to_string()),
            serde_json::Value::String(s) => Value::Text(s),
            serde_json::Value::Array(a) => Value::Nested(serde_json::Value::Array(a).to_string()),
            serde_json::Value::Object(o) => Value::Nested(serde_json::Value::Object(o).to_string()),
        })
    }).collect())
}

/// Named values with members set one after the other.
pub open spec fn merged(
    a: model::AddressingModel,
    members: Seq<(Seq<char>, model::ValueModel)>,
) -> model::AddressingModel
    decreases members.len(),
{
    if members.len() == 0 {
        a
    } else {
        merged(a, members.drop_last()).insert(members.last().0, members.last().1)
    }
}

/// Merges members into the connection of the active protocol.
pub open spec fn connection_step(
    r: Run,
    parsed: Result<Seq<(Seq<char>, model::ValueModel)>, Seq<char>>,
) -> Run {
    match parsed {
        Err(e) => stopped(
            r,
            error::caused("REPUBLISHER_CONNECTION_JSON is not a JSON object"@, e),
        ),
        Ok(members) => if r.config.protocol.len() == 0 {
            stopped(
                r,
                error::plain(
                    "REPUBLISHER_CONNECTION_JSON requires REPUBLISHER_PROTOCOL (or a configured protocol)"@,
                ),
            )
        } else {
            noted(
                r,
                config::ConfigModel {
                    connections: r.config.connections.insert(
                        r.config.protocol,
                        merged(config::connection_of(r.config), members),
                    ),
                    ..r.config
                },
                "connection (env JSON merge)"@,
            )
        },
    }
}

/// Merges a parsed object into the connection of the active protocol.
pub fn merge_connection(
    config: &mut AppConfig,
    notes: &mut Vec<String>,
    parsed: Result<Vec<(String, Value)>, String>,
) -> (r: Result<(), BootError>)
    ensures
        after(final(config)@, final(notes)@, r) == connection_step(
            going(old(config)@, text::views(old(notes)@)),
            parse_view(parsed),
        ),
{
    match parsed {
        Err(e) => Err(
            BootError {
                message: "REPUBLISHER_CONNECTION_JSON is not a JSON object".to_string(),
                cause: Some(e),
            },
        ),
        Ok(members) => {
            if config.protocol.as_str().is_empty() {
                return Err(
                    BootError::new(
                        "REPUBLISHER_CONNECTION_JSON requires REPUBLISHER_PROTOCOL (or a configured protocol)".to_string(),
                    ),
                );
            }
            let mut connection: Addressing = config.connection();
            let ghost start = connection@;
            let ghost all = member_views(members@);
            let ghost listed = members@;
            assert(all.take(0) =~= Seq::empty());
            for member in iter: members
                invariant
                    iter.seq() == listed,
                    all == member_views(listed),
                    connection@ == merged(start, all.take(iter.index())),
            {
                proof {
                    let n = iter.index();
                    assert(all.take(n + 1).drop_last() =~= all.take(n));
                }
                let (key, value) = member;
                connection.insert(key, value);
            }
            assert(all.take(all.len() as int) =~= all);
            config.set_connection(connection);
            add_note(notes, "connection (env JSON merge)".to_string());
            Ok(())
        },
    }
}

/// What merging imported points into the configured ones gave.
#[derive(Debug)]
pub struct MergedPoints {
    pub points: Vec<PointConfig>,
    pub added: usize,
    pub updated: usize,
}

/// What [`MergedPoints`] stand for.
pub struct MergedModel {
    pub points: Seq<model::PointModel>,
    pub added: usize,
    pub updated: usize,
}

impl View for MergedPoints {
    type V = MergedModel;

    open spec fn view(&self) -> MergedModel {
        MergedModel {
            points: text::views(self.points@),
            added: self.added,
            updated: self.updated,
        }
    }
}

/// The view of an import.
pub open spec fn import_view(r: Result<MergedPoints, String>) -> Result<MergedModel, Seq<char>> {
    match r {
        Ok(m) => Ok(m@),
        Err(e) => Err(e@),
    }
}

/// Takes over imported points.
pub open spec fn points_step(
    r: Run,
    vars: Vars,
    import: Result<MergedModel, Seq<char>>,
) -> Run {
    if r.failed is Some || setting(vars, "REPUBLISHER_POINTS_JSON"@) is None {
        r
    } else {
        match import {
            Err(e) => stopped(
                r,
                error::caused("REPUBLISHER_POINTS_JSON is not a PointConfig array"@, e),
            ),
            Ok(m) => noted(
                r,
                config::ConfigModel { points: m.points, ..r.config },
                "points (env JSON merge: "@ + text::decimal(m.added as nat) + " added, "@
                    + text::decimal(m.updated as nat) + " updated)"@,
            ),
        }
    }
}

/// Takes over imported points.
fn apply_points(
    config: &mut AppConfig,
    notes: &mut Vec<String>,
    vars: &EnvVars,
    import: Result<MergedPoints, String>,
) -> (r: Result<(), BootError>)
    ensures
        after(final(config)@, final(notes)@, r) == points_step(
            going(old(config)@, text::views(old(notes)@)),
            vars@,
            import_view(import),
        ),
{
    match env(vars, "REPUBLISHER_POINTS_JSON") {
        None => Ok(()),
        Some(_) => match import {
            Err(e) => Err(
                BootError {
                    message: "REPUBLISHER_POINTS_JSON is not a PointConfig array".to_string(),
                    cause: Some(e),
                },
            ),
            Ok(m) => {
                let mut note = "points (env JSON merge: ".to_string();
                note.append(&decimal_text(m.added as u64));
                note.append(" added, ");
                note.append(&decimal_text(m.updated as u64));
                note.append(" updated)");
                add_note(notes, note);
                config.points = m.points;
                Ok(())
            },
        },
    }
}

/// The broker settings up to the password.
#[verifier::opaque]
pub open spec fn broker_steps(r0: Run, vars: Vars) -> Run {
    let r1 = protocol_step(r0, vars);
    let r2 = text_step(r1, vars, TextSetting::Host);
    let r3 = port_step(r2, vars);
    let r4 = flag_step(r3, vars, FlagSetting::Tls);
    let r5 = text_step(r4, vars, TextSetting::ClientId);
    let r6 = text_step(r5, vars, TextSetting::TopicPrefix);
    let r7 = text_step(r6, vars, TextSetting::HealthTopic);
    let r8 = text_step(r7, vars, TextSetting::Username);
    text_step(r8, vars, TextSetting::Password)
}

/// The settings from the certificates on.
#[verifier::opaque]
pub open spec fn remaining_steps(r0: Run, vars: Vars) -> Run {
    let r1 = text_step(r0, vars, TextSetting::CaCert);
    let r2 = text_step(r1, vars, TextSetting::ClientCert);
    let r3 = text_step(r2, vars, TextSetting::ClientKey);
    let r4 = text_step(r3, vars, TextSetting::ClientKeyPassphrase);
    let r5 = flag_step(r4, vars, FlagSetting::Retain);
    let r6 = keep_alive_step(r5, vars);
    let r7 = format_step(r6, vars);
    let r8 = text_step(r7, vars, TextSetting::DeviceTopicPrefix);
    let r9 = flag_step(r8, vars, FlagSetting::Autostart);
    flag_step(r9, vars, FlagSetting::DiscoverOnStart)
}

/// Merges the connection that the environment gives.
pub open spec fn env_connection_step(r: Run, vars: Vars) -> Run {
    if r.failed is Some {
        r
    } else {
        match setting(vars, "REPUBLISHER_CONNECTION_JSON"@) {
            None => r,
            Some(raw) => connection_step(r, parsed_object(raw)),
        }
    }
}

/// The whole environment, setting after setting; the first bad one stops it.
pub open spec fn overrides(
    c: config::ConfigModel,
    vars: Vars,
    secret: Option<Seq<char>>,
    import: Result<MergedModel, Seq<char>>,
) -> Run {
    let r1 = broker_steps(going(c, Seq::empty()), vars);
    let r2 = password_env_step(r1, vars, secret);
    let r3 = remaining_steps(r2, vars);
    let r4 = env_connection_step(r3, vars);
    points_step(r4, vars, import)
}

/// The broker settings up to the password.
fn apply_broker(config: &mut AppConfig, notes: &mut Vec<String>, vars: &EnvVars) -> (r: Result<
    (),
    BootError,
>)
    ensures
        after(final(config)@, final(notes)@, r) == broker_steps(
            going(old(config)@, text::views(old(notes)@)),
            vars@,
        ),
{
    reveal(broker_steps);
    reveal(protocol_step);
    reveal(text_step);
    reveal(port_step);
    reveal(flag_step);
    apply_protocol(config, notes, vars);
    apply_text(config, notes, vars, TextSetting::Host);
    match apply_port(config, notes, vars) {
        Err(e) => return Err(e),
        Ok(()) => {},
    }
    match apply_flag(config, notes, vars, FlagSetting::Tls) {
        Err(e) => return Err(e),
        Ok(()) => {},
    }
    apply_text(config, notes, vars, TextSetting::ClientId);
    apply_text(config, notes, vars, TextSetting::TopicPrefix);
    apply_text(config, notes, vars, TextSetting::HealthTopic);
    apply_text(config, notes, vars, TextSetting::Username);
    apply_text(config, notes, vars, TextSetting::Password);
    Ok(())
}

/// The settings from the certificates on.
fn apply_remaining(config: &mut AppConfig, notes: &mut Vec<String>, vars: &EnvVars) -> (r: Result<
    (),
    BootError,
>)
    ensures
        after(final(config)@, final(notes)@, r) == remaining_steps(
            going(old(config)@, text::views(old(notes)@)),
            vars@,
        ),
{
    reveal(remaining_steps);
    reveal(text_step);
    reveal(flag_step);
    reveal(keep_alive_step);
    reveal(format_step);
    apply_text(config, notes, vars, TextSetting::CaCert);
    apply_text(config, notes, vars, TextSetting::ClientCert);
    apply_text(config, notes, vars, TextSetting::ClientKey);
    apply_text(config, notes, vars, TextSetting::ClientKeyPassphrase);
    match apply_flag(config, notes, vars, FlagSetting::Retain) {
        Err(e) => return Err(e),
        Ok(()) => {},
    }
    match apply_keep_alive(config, notes, vars) {
        Err(e) => return Err(e),
        Ok(()) => {},
    }
    match apply_format(config, notes, vars) {
        Err(e) => return Err(e),
        Ok(()) => {},
    }
    apply_text(config, notes, vars, TextSetting::DeviceTopicPrefix);
    match apply_flag(config, notes, vars, FlagSetting::Autostart) {
        Err(e) => return Err(e),
        Ok(()) => {},
    }
    apply_flag(config, notes, vars, FlagSetting::DiscoverOnStart)
}

/// The view of the notes or of the reason that there are none.
pub open spec fn notes_view(r: Result<Vec<String>, BootError>) -> Result<
    Seq<Seq<char>>,
    error::BootErrorModel,
> {
    match r {
        Ok(notes) => Ok(text::views(notes@)),
        Err(e) => Err(e@),
    }
}

/// What a run ends with: its notes, or the reason that it stopped.
pub open spec fn run_result(r: Run) -> Result<Seq<Seq<char>>, error::BootErrorModel> {
    match r.failed {
        Some(e) => Err(e),
        None => Ok(r.notes),
    }
}

/// The broker settings from which the core is to resolve the named secret: those of the
/// environment up to the password, with the name. There are none where no variable is named, or
/// where a setting before it is bad.
pub fn secret_source(config: AppConfig, vars: &EnvVars) -> (r: Option<MqttConfig>)
    ensures
        ({
            let run = broker_steps(going(config@, Seq::empty()), vars@);
            let name = setting(vars@, "REPUBLISHER_MQTT_PASSWORD_ENV"@);
            match r {
                Some(m) => {
                    &&& run.failed is None
                    &&& name is Some
                    &&& m@ == (config::MqttModel { password_env: name, ..run.config.mqtt })
                },
                None => run.failed is Some || name is None,
            }
        }),
{
    let mut config = config;
    let mut notes: Vec<String> = Vec::new();
    assert(text::views(notes@) =~= Seq::empty());
    match apply_broker(&mut config, &mut notes, vars) {
        Err(_) => return None,
        Ok(()) => {},
    }
    match env(vars, "REPUBLISHER_MQTT_PASSWORD_ENV") {
        None => None,
        Some(name) => {
            let mut mqtt = config.mqtt;
            mqtt.password_env = Some(name);
            Some(mqtt)
        },
    }
}

/// Applies the environment to a configuration, and tells what was changed.
///
/// `secret` is what the variable named by `REPUBLISHER_MQTT_PASSWORD_ENV` holds; `import` is what
/// reading `REPUBLISHER_POINTS_JSON` and merging it into the configured points gave. Each is used
/// only where its variable is set.
pub fn apply_env_overrides(
    config: &mut AppConfig,
    vars: &EnvVars,
    secret: Option<String>,
    import: Result<MergedPoints, String>,
) -> (r: Result<Vec<String>, BootError>)
    ensures
        final(config)@ == overrides(
            old(config)@,
            vars@,
            text::opt(secret),
            import_view(import),
        ).config,
        notes_view(r) == run_result(
            overrides(old(config)@, vars@, text::opt(secret), import_view(import)),
        ),
{
    let mut notes: Vec<String> = Vec::new();
    assert(text::views(notes@) =~= Seq::empty());
    match apply_broker(config, &mut notes, vars) {
        Err(e) => {
            proof {
                lemma_stays_stopped(after(config@, notes@, Err::<(), BootError>(e)), vars@);
            }
            return Err(e);
        },
        Ok(()) => {},
    }
    apply_password_env(config, &mut notes, vars, secret);
    match apply_remaining(config, &mut notes, vars) {
        Err(e) => return Err(e),
        Ok(()) => {},
    }
    match env(vars, "REPUBLISHER_CONNECTION_JSON") {
        Some(raw) => {
            let parsed = parse_object(&raw);
            match merge_connection(config, &mut notes, parsed) {
                Err(e) => return Err(e),
                Ok(()) => {},
            }
        },
        None => {},
    }
    match apply_points(config, &mut notes, vars, import) {
        Err(e) => return Err(e),
        Ok(()) => {},
    }
    Ok(notes)
}


/// A run that has stopped goes no further.
pub proof fn lemma_stays_stopped(r: Run, vars: Vars)
    requires
        r.failed is Some,
    ensures
        remaining_steps(r, vars) == r,
{
    reveal(remaining_steps);
    reveal(text_step);
    reveal(flag_step);
    reveal(keep_alive_step);
    reveal(format_step);
}

/// What a setting holds after it was set or left alone.
pub open spec fn chosen<T>(given: Option<T>, stored: T) -> T {
    match given {
        Some(v) => v,
        None => stored,
    }
}

/// What an optional setting holds after it was set or left alone.
pub open spec fn chosen_opt<T>(given: Option<T>, stored: Option<T>) -> Option<T> {
    match given {
        Some(v) => Some(v),
        None => stored,
    }
}

/// One text setting.
proof fn lemma_text_step(r: Run, vars: Vars, s: TextSetting)
    ensures
        text_step(r, vars, s).failed == r.failed,
        r.failed is Some ==> text_step(r, vars, s) == r,
        r.failed is None ==> text_step(r, vars, s).config == with_mqtt(
            r.config,
            match setting(vars, text_var(s)) {
                Some(v) => with_text(r.config.mqtt, s, v),
                None => r.config.mqtt,
            },
        ),
{
    reveal(text_step);
}

/// One truth value.
proof fn lemma_flag_step(r: Run, vars: Vars, s: FlagSetting)
    ensures
        r.failed is Some ==> flag_step(r, vars, s) == r,
        flag_step(r, vars, s).failed is None ==> r.failed is None && bool_setting(
            vars,
            flag_var(s),
        ) is Ok,
        flag_step(r, vars, s).failed is Some ==> flag_step(r, vars, s).config == r.config,
        flag_step(r, vars, s).failed is None ==> flag_step(r, vars, s).config == match bool_setting(
            vars,
            flag_var(s),
        )->Ok_0 {
            Some(b) => with_flag(r.config, s, b),
            None => r.config,
        },
{
    reveal(flag_step);
}

/// The protocol.
proof fn lemma_protocol_step(r: Run, vars: Vars)
    ensures
        protocol_step(r, vars).failed == r.failed,
        r.failed is Some ==> protocol_step(r, vars) == r,
        r.failed is None ==> protocol_step(r, vars).config == (config::ConfigModel {
            protocol: match setting(vars, "REPUBLISHER_PROTOCOL"@) {
                Some(v) => text::trimmed(v),
                None => r.config.protocol,
            },
            ..r.config
        }),
{
    reveal(protocol_step);
}

/// The port.
proof fn lemma_port_step(r: Run, vars: Vars)
    ensures
        r.failed is Some ==> port_step(r, vars) == r,
        port_step(r, vars).failed is Some ==> port_step(r, vars).config == r.config,
        port_step(r, vars).failed is None ==> r.failed is None && number_setting::<u16>(
            vars,
            "REPUBLISHER_MQTT_PORT"@,
        ) is Ok && port_step(r, vars).config == with_mqtt(
            r.config,
            config::MqttModel {
                port: chosen(
                    number_setting::<u16>(vars, "REPUBLISHER_MQTT_PORT"@)->Ok_0,
                    r.config.mqtt.port,
                ),
                ..r.config.mqtt
            },
        ),
{
    reveal(port_step);
}

/// The keep-alive.
proof fn lemma_keep_alive_step(r: Run, vars: Vars)
    ensures
        r.failed is Some ==> keep_alive_step(r, vars) == r,
        keep_alive_step(r, vars).failed is Some ==> keep_alive_step(r, vars).config == r.config,
        keep_alive_step(r, vars).failed is None ==> r.failed is None && number_setting::<u64>(
            vars,
            "REPUBLISHER_MQTT_KEEP_ALIVE_SECS"@,
        ) is Ok && keep_alive_step(r, vars).config == with_mqtt(
            r.config,
            config::MqttModel {
                keep_alive_secs: match number_setting::<u64>(
                    vars,
                    "REPUBLISHER_MQTT_KEEP_ALIVE_SECS"@,
                )->Ok_0 {
                    Some(n) => at_least_one(n),
                    None => r.config.mqtt.keep_alive_secs,
                },
                ..r.config.mqtt
            },
        ),
{
    reveal(keep_alive_step);
}

/// The payload format.
proof fn lemma_format_step(r: Run, vars: Vars)
    ensures
        r.failed is Some ==> format_step(r, vars) == r,
        format_step(r, vars).failed is Some ==> format_step(r, vars).config == r.config,
        format_step(r, vars).failed is None ==> r.failed is None && (setting(
            vars,
            "REPUBLISHER_MQTT_PAYLOAD_FORMAT"@,
        ) matches Some(raw) ==> named_format(raw) is Some) && format_step(r, vars).config
            == with_mqtt(
            r.config,
            config::MqttModel {
                payload_format: match setting(vars, "REPUBLISHER_MQTT_PAYLOAD_FORMAT"@) {
                    Some(raw) => named_format(raw)->Some_0,
                    None => r.config.mqtt.payload_format,
                },
                ..r.config.mqtt
            },
        ),
{
    reveal(format_step);
}

/// The first settings after a run that did not stop at one of them.
pub proof fn lemma_broker(r: Run, vars: Vars)
    requires
        r.failed is None,
        broker_steps(r, vars).failed is None,
    ensures
        number_setting::<u16>(vars, "REPUBLISHER_MQTT_PORT"@) is Ok,
        bool_setting(vars, "REPUBLISHER_MQTT_TLS"@) is Ok,
        broker_steps(r, vars).config == (config::ConfigModel {
            protocol: chosen(
                match setting(vars, "REPUBLISHER_PROTOCOL"@) {
                    Some(v) => Some(text::trimmed(v)),
                    None => None,
                },
                r.config.protocol,
            ),
            mqtt: config::MqttModel {
                host: chosen(setting(vars, "REPUBLISHER_MQTT_HOST"@), r.config.mqtt.host),
                port: chosen(
                    number_setting::<u16>(vars, "REPUBLISHER_MQTT_PORT"@)->Ok_0,
                    r.config.mqtt.port,
                ),
                use_tls: chosen(
                    bool_setting(vars, "REPUBLISHER_MQTT_TLS"@)->Ok_0,
                    r.config.mqtt.use_tls,
                ),
                client_id: chosen(
                    setting(vars, "REPUBLISHER_MQTT_CLIENT_ID"@),
                    r.config.mqtt.client_id,
                ),
                topic_prefix: chosen(
                    setting(vars, "REPUBLISHER_MQTT_TOPIC_PREFIX"@),
                    r.config.mqtt.topic_prefix,
                ),
                health_topic: chosen(
                    setting(vars, "REPUBLISHER_MQTT_HEALTH_TOPIC"@),
                    r.config.mqtt.health_topic,
                ),
                username: chosen_opt(
                    setting(vars, "REPUBLISHER_MQTT_USERNAME"@),
                    r.config.mqtt.username,
                ),
                password: chosen_opt(
                    setting(vars, "REPUBLISHER_MQTT_PASSWORD"@),
                    r.config.mqtt.password,
                ),
                ..r.config.mqtt
            },
            ..r.config
        }),
{
    reveal(broker_steps);
    let r1 = protocol_step(r, vars);
    let r2 = text_step(r1, vars, TextSetting::Host);
    let r3 = port_step(r2, vars);
    let r4 = flag_step(r3, vars, FlagSetting::Tls);
    let r5 = text_step(r4, vars, TextSetting::ClientId);
    let r6 = text_step(r5, vars, TextSetting::TopicPrefix);
    let r7 = text_step(r6, vars, TextSetting::HealthTopic);
    let r8 = text_step(r7, vars, TextSetting::Username);
    lemma_protocol_step(r, vars);
    lemma_text_step(r1, vars, TextSetting::Host);
    lemma_port_step(r2, vars);
    lemma_flag_step(r3, vars, FlagSetting::Tls);
    lemma_text_step(r4, vars, TextSetting::ClientId);
    lemma_text_step(r5, vars, TextSetting::TopicPrefix);
    lemma_text_step(r6, vars, TextSetting::HealthTopic);
    lemma_text_step(r7, vars, TextSetting::Username);
    lemma_text_step(r8, vars, TextSetting::Password);
}

/// The further settings after a run that did not stop at one of them.
#[verifier::spinoff_prover]
#[verifier::rlimit(30)]
pub proof fn lemma_remaining(r: Run, vars: Vars)
    requires
        remaining_steps(r, vars).failed is None,
    ensures
        r.failed is None,
        number_setting::<u64>(vars, "REPUBLISHER_MQTT_KEEP_ALIVE_SECS"@) is Ok,
        bool_setting(vars, "REPUBLISHER_MQTT_RETAIN"@) is Ok,
        bool_setting(vars, "REPUBLISHER_AUTOSTART"@) is Ok,
        bool_setting(vars, "REPUBLISHER_DISCOVER_ON_START"@) is Ok,
        setting(vars, "REPUBLISHER_MQTT_PAYLOAD_FORMAT"@) matches Some(raw) ==> named_format(
            raw,
        ) is Some,
        remaining_steps(r, vars).config == (config::ConfigModel {
            mqtt: config::MqttModel {
                ca_cert_path: chosen_opt(
                    setting(vars, "REPUBLISHER_MQTT_CA_CERT"@),
                    r.config.mqtt.ca_cert_path,
                ),
                client_cert_path: chosen_opt(
                    setting(vars, "REPUBLISHER_MQTT_CLIENT_CERT"@),
                    r.config.mqtt.client_cert_path,
                ),
                client_key_path: chosen_opt(
                    setting(vars, "REPUBLISHER_MQTT_CLIENT_KEY"@),
                    r.config.mqtt.client_key_path,
                ),
                client_key_passphrase: chosen_opt(
                    setting(vars, "REPUBLISHER_MQTT_CLIENT_KEY_PASSPHRASE"@),
                    r.config.mqtt.client_key_passphrase,
                ),
                retain: chosen(
                    bool_setting(vars, "REPUBLISHER_MQTT_RETAIN"@)->Ok_0,
                    r.config.mqtt.retain,
                ),
                keep_alive_secs: match number_setting::<u64>(
                    vars,
                    "REPUBLISHER_MQTT_KEEP_ALIVE_SECS"@,
                )->Ok_0 {
                    Some(n) => at_least_one(n),
                    None => r.config.mqtt.keep_alive_secs,
                },
                payload_format: match setting(vars, "REPUBLISHER_MQTT_PAYLOAD_FORMAT"@) {
                    Some(raw) => named_format(raw)->Some_0,
                    None => r.config.mqtt.payload_format,
                },
                device_topic_prefix: chosen(
                    setting(vars, "REPUBLISHER_MQTT_DEVICE_TOPIC_PREFIX"@),
                    r.config.mqtt.device_topic_prefix,
                ),
                autostart: chosen(
                    bool_setting(vars, "REPUBLISHER_AUTOSTART"@)->Ok_0,
                    r.config.mqtt.autostart,
                ),
                ..r.config.mqtt
            },
            discover_on_start: chosen(
                bool_setting(vars, "REPUBLISHER_DISCOVER_ON_START"@)->Ok_0,
                r.config.discover_on_start,
            ),
            ..r.config
        }),
{
    reveal(remaining_steps);
    let r1 = text_step(r, vars, TextSetting::CaCert);
    let r2 = text_step(r1, vars, TextSetting::ClientCert);
    let r3 = text_step(r2, vars, TextSetting::ClientKey);
    let r4 = text_step(r3, vars, TextSetting::ClientKeyPassphrase);
    let r5 = flag_step(r4, vars, FlagSetting::Retain);
    let r6 = keep_alive_step(r5, vars);
    let r7 = format_step(r6, vars);
    let r8 = text_step(r7, vars, TextSetting::DeviceTopicPrefix);
    let r9 = flag_step(r8, vars, FlagSetting::Autostart);
    let r10 = flag_step(r9, vars, FlagSetting::DiscoverOnStart);
    assert(r10 == remaining_steps(r, vars));
    assert(r9.failed is None) by {
        lemma_flag_step(r9, vars, FlagSetting::DiscoverOnStart);
    }
    assert(r8.failed is None) by {
        lemma_flag_step(r8, vars, FlagSetting::Autostart);
    }
    assert(r7.failed is None) by {
        lemma_text_step(r7, vars, TextSetting::DeviceTopicPrefix);
    }
    assert(r6.failed is None) by {
        lemma_format_step(r6, vars);
    }
    assert(r5.failed is None) by {
        lemma_keep_alive_step(r5, vars);
    }
    assert(r4.failed is None) by {
        lemma_flag_step(r4, vars, FlagSetting::Retain);
    }
    lemma_text_step(r, vars, TextSetting::CaCert);
    lemma_text_step(r1, vars, TextSetting::ClientCert);
    lemma_text_step(r2, vars, TextSetting::ClientKey);
    lemma_text_step(r3, vars, TextSetting::ClientKeyPassphrase);
    let m4 = config::MqttModel {
        ca_cert_path: chosen_opt(
            setting(vars, "REPUBLISHER_MQTT_CA_CERT"@),
            r.config.mqtt.ca_cert_path,
        ),
        client_cert_path: chosen_opt(
            setting(vars, "REPUBLISHER_MQTT_CLIENT_CERT"@),
            r.config.mqtt.client_cert_path,
        ),
        client_key_path: chosen_opt(
            setting(vars, "REPUBLISHER_MQTT_CLIENT_KEY"@),
            r.config.mqtt.client_key_path,
        ),
        client_key_passphrase: chosen_opt(
            setting(vars, "REPUBLISHER_MQTT_CLIENT_KEY_PASSPHRASE"@),
            r.config.mqtt.client_key_passphrase,
        ),
        ..r.config.mqtt
    };
    assert(r4.config == with_mqtt(r.config, m4));
    lemma_flag_step(r4, vars, FlagSetting::Retain);
    let m5 = config::MqttModel {
        retain: chosen(bool_setting(vars, "REPUBLISHER_MQTT_RETAIN"@)->Ok_0, m4.retain),
        ..m4
    };
    assert(r5.config == with_mqtt(r.config, m5));
    lemma_keep_alive_step(r5, vars);
    lemma_format_step(r6, vars);
    lemma_text_step(r7, vars, TextSetting::DeviceTopicPrefix);
    let m8 = config::MqttModel {
        keep_alive_secs: match number_setting::<u64>(
            vars,
            "REPUBLISHER_MQTT_KEEP_ALIVE_SECS"@,
        )->Ok_0 {
            Some(n) => at_least_one(n),
            None => m5.keep_alive_secs,
        },
        payload_format: match setting(vars, "REPUBLISHER_MQTT_PAYLOAD_FORMAT"@) {
            Some(raw) => named_format(raw)->Some_0,
            None => m5.payload_format,
        },
        device_topic_prefix: chosen(
            setting(vars, "REPUBLISHER_MQTT_DEVICE_TOPIC_PREFIX"@),
            m5.device_topic_prefix,
        ),
        ..m5
    };
    assert(r8.config == with_mqtt(r.config, m8));
    lemma_flag_step(r8, vars, FlagSetting::Autostart);
    lemma_flag_step(r9, vars, FlagSetting::DiscoverOnStart);
}

/// What the first settings never touch.
proof fn lemma_broker_frame(r: Run, vars: Vars)
    ensures
        broker_steps(r, vars).config.theme == r.config.theme,
        broker_steps(r, vars).config.mqtt.remember_secrets == r.config.mqtt.remember_secrets,
        broker_steps(r, vars).config.connections == r.config.connections,
        broker_steps(r, vars).config.points == r.config.points,
{
    reveal(broker_steps);
    let r1 = protocol_step(r, vars);
    let r2 = text_step(r1, vars, TextSetting::Host);
    let r3 = port_step(r2, vars);
    let r4 = flag_step(r3, vars, FlagSetting::Tls);
    let r5 = text_step(r4, vars, TextSetting::ClientId);
    let r6 = text_step(r5, vars, TextSetting::TopicPrefix);
    let r7 = text_step(r6, vars, TextSetting::HealthTopic);
    let r8 = text_step(r7, vars, TextSetting::Username);
    lemma_protocol_step(r, vars);
    lemma_text_step(r1, vars, TextSetting::Host);
    lemma_port_step(r2, vars);
    lemma_flag_step(r3, vars, FlagSetting::Tls);
    lemma_text_step(r4, vars, TextSetting::ClientId);
    lemma_text_step(r5, vars, TextSetting::TopicPrefix);
    lemma_text_step(r6, vars, TextSetting::HealthTopic);
    lemma_text_step(r7, vars, TextSetting::Username);
    lemma_text_step(r8, vars, TextSetting::Password);
}

/// What the further settings never touch.
proof fn lemma_remaining_frame(r: Run, vars: Vars)
    ensures
        remaining_steps(r, vars).config.protocol == r.config.protocol,
        remaining_steps(r, vars).config.theme == r.config.theme,
        remaining_steps(r, vars).config.mqtt.remember_secrets == r.config.mqtt.remember_secrets,
        remaining_steps(r, vars).config.connections == r.config.connections,
        remaining_steps(r, vars).config.points == r.config.points,
{
    reveal(remaining_steps);
    let r1 = text_step(r, vars, TextSetting::CaCert);
    let r2 = text_step(r1, vars, TextSetting::ClientCert);
    let r3 = text_step(r2, vars, TextSetting::ClientKey);
    let r4 = text_step(r3, vars, TextSetting::ClientKeyPassphrase);
    let r5 = flag_step(r4, vars, FlagSetting::Retain);
    let r6 = keep_alive_step(r5, vars);
    let r7 = format_step(r6, vars);
    let r8 = text_step(r7, vars, TextSetting::DeviceTopicPrefix);
    let r9 = flag_step(r8, vars, FlagSetting::Autostart);
    lemma_text_step(r, vars, TextSetting::CaCert);
    lemma_text_step(r1, vars, TextSetting::ClientCert);
    lemma_text_step(r2, vars, TextSetting::ClientKey);
    lemma_text_step(r3, vars, TextSetting::ClientKeyPassphrase);
    lemma_flag_step(r4, vars, FlagSetting::Retain);
    lemma_keep_alive_step(r5, vars);
    lemma_format_step(r6, vars);
    lemma_text_step(r7, vars, TextSetting::DeviceTopicPrefix);
    lemma_flag_step(r8, vars, FlagSetting::Autostart);
    lemma_flag_step(r9, vars, FlagSetting::DiscoverOnStart);
}

/// A run that did not stop did not stop at any of its parts.
pub proof fn lemma_parts(
    c: config::ConfigModel,
    vars: Vars,
    secret: Option<Seq<char>>,
    import: Result<MergedModel, Seq<char>>,
) -> (parts: (Run, Run))
    requires
        overrides(c, vars, secret, import).failed is None,
    ensures
        parts.0 == broker_steps(going(c, Seq::empty()), vars),
        parts.0.failed is None,
        parts.1 == remaining_steps(password_env_step(parts.0, vars, secret), vars),
        parts.1.failed is None,
        overrides(c, vars, secret, import).config.mqtt == parts.1.config.mqtt,
        overrides(c, vars, secret, import).config.protocol == parts.1.config.protocol,
        overrides(c, vars, secret, import).config.discover_on_start
            == parts.1.config.discover_on_start,
{
    let r1 = broker_steps(going(c, Seq::empty()), vars);
    let r2 = password_env_step(r1, vars, secret);
    let r3 = remaining_steps(r2, vars);
    if r2.failed is Some {
        lemma_stays_stopped(r2, vars);
    }
    (r1, r3)
}

/// What a text setting holds.
pub open spec fn text_value(m: config::MqttModel, s: TextSetting) -> Option<Seq<char>> {
    match s {
        TextSetting::Host => Some(m.host),
        TextSetting::ClientId => Some(m.client_id),
        TextSetting::TopicPrefix => Some(m.topic_prefix),
        TextSetting::HealthTopic => Some(m.health_topic),
        TextSetting::Username => m.username,
        TextSetting::Password => m.password,
        TextSetting::CaCert => m.ca_cert_path,
        TextSetting::ClientCert => m.client_cert_path,
        TextSetting::ClientKey => m.client_key_path,
        TextSetting::ClientKeyPassphrase => m.client_key_passphrase,
        TextSetting::DeviceTopicPrefix => Some(m.device_topic_prefix),
    }
}

/// What a truth value setting holds.
pub open spec fn flag_value(c: config::ConfigModel, s: FlagSetting) -> bool {
    match s {
        FlagSetting::Tls => c.mqtt.use_tls,
        FlagSetting::Retain => c.mqtt.retain,
        FlagSetting::Autostart => c.mqtt.autostart,
        FlagSetting::DiscoverOnStart => c.discover_on_start,
    }
}

/// A variable that is set wins over the stored setting, and one that is not leaves it as it was.
/// The password is the one setting that two variables give: see [`law_password_indirection`].
pub proof fn law_environment_wins(
    c: config::ConfigModel,
    vars: Vars,
    secret: Option<Seq<char>>,
    import: Result<MergedModel, Seq<char>>,
    s: TextSetting,
)
    requires
        overrides(c, vars, secret, import).failed is None,
        s != TextSetting::Password,
    ensures
        text_value(overrides(c, vars, secret, import).config.mqtt, s) == match setting(
            vars,
            text_var(s),
        ) {
            Some(v) => Some(v),
            None => text_value(c.mqtt, s),
        },
{
    let (r1, r3) = lemma_parts(c, vars, secret, import);
    lemma_broker(going(c, Seq::empty()), vars);
    lemma_remaining(password_env_step(r1, vars, secret), vars);
}

/// A truth value that is set wins over the stored one, and one that is not leaves it as it was.
pub proof fn law_environment_flags_win(
    c: config::ConfigModel,
    vars: Vars,
    secret: Option<Seq<char>>,
    import: Result<MergedModel, Seq<char>>,
    s: FlagSetting,
)
    requires
        overrides(c, vars, secret, import).failed is None,
    ensures
        bool_setting(vars, flag_var(s)) is Ok,
        flag_value(overrides(c, vars, secret, import).config, s) == match bool_setting(
            vars,
            flag_var(s),
        )->Ok_0 {
            Some(b) => b,
            None => flag_value(c, s),
        },
{
    let (r1, r3) = lemma_parts(c, vars, secret, import);
    lemma_broker(going(c, Seq::empty()), vars);
    lemma_remaining(password_env_step(r1, vars, secret), vars);
}

/// The protocol, the port, the keep-alive and the payload format that are set win over the stored
/// ones, those that are not are left as they were, and the keep-alive is never set below a second.
pub proof fn law_environment_numbers_win(
    c: config::ConfigModel,
    vars: Vars,
    secret: Option<Seq<char>>,
    import: Result<MergedModel, Seq<char>>,
)
    requires
        overrides(c, vars, secret, import).failed is None,
    ensures
        ({
            let after = overrides(c, vars, secret, import).config;
            let port = number_setting::<u16>(vars, "REPUBLISHER_MQTT_PORT"@);
            let keep_alive = number_setting::<u64>(vars, "REPUBLISHER_MQTT_KEEP_ALIVE_SECS"@);
            let format = setting(vars, "REPUBLISHER_MQTT_PAYLOAD_FORMAT"@);
            let protocol = setting(vars, "REPUBLISHER_PROTOCOL"@);
            &&& after.protocol == match protocol {
                Some(v) => text::trimmed(v),
                None => c.protocol,
            }
            &&& port is Ok
            &&& after.mqtt.port == match port->Ok_0 {
                Some(n) => n,
                None => c.mqtt.port,
            }
            &&& keep_alive is Ok
            &&& after.mqtt.keep_alive_secs == match keep_alive->Ok_0 {
                Some(n) => at_least_one(n),
                None => c.mqtt.keep_alive_secs,
            }
            &&& match format {
                Some(raw) => named_format(raw) == Some(after.mqtt.payload_format),
                None => after.mqtt.payload_format == c.mqtt.payload_format,
            }
        }),
{
    let (r1, r3) = lemma_parts(c, vars, secret, import);
    lemma_broker(going(c, Seq::empty()), vars);
    lemma_remaining(password_env_step(r1, vars, secret), vars);
}

/// The password comes from the variable that `REPUBLISHER_MQTT_PASSWORD_ENV` names, where that
/// one holds it; else from `REPUBLISHER_MQTT_PASSWORD`, where it is set; else it is the stored one.
pub proof fn law_password_indirection(
    c: config::ConfigModel,
    vars: Vars,
    secret: Option<Seq<char>>,
    import: Result<MergedModel, Seq<char>>,
)
    requires
        overrides(c, vars, secret, import).failed is None,
    ensures
        ({
            let after = overrides(c, vars, secret, import).config.mqtt;
            let named = setting(vars, "REPUBLISHER_MQTT_PASSWORD_ENV"@);
            let given = setting(vars, "REPUBLISHER_MQTT_PASSWORD"@);
            &&& after.password_env == match named {
                Some(v) => Some(v),
                None => c.mqtt.password_env,
            }
            &&& after.password == if named is Some && secret is Some {
                secret
            } else if given is Some {
                given
            } else {
                c.mqtt.password
            }
        }),
{
    let (r1, r3) = lemma_parts(c, vars, secret, import);
    lemma_broker(going(c, Seq::empty()), vars);
    lemma_remaining(password_env_step(r1, vars, secret), vars);
}

/// A bad value is never passed over: it stops the start.
pub proof fn law_bad_values_stop(
    c: config::ConfigModel,
    vars: Vars,
    secret: Option<Seq<char>>,
    import: Result<MergedModel, Seq<char>>,
    s: FlagSetting,
)
    requires
        ({
            ||| number_setting::<u16>(vars, "REPUBLISHER_MQTT_PORT"@) is Err
            ||| number_setting::<u64>(vars, "REPUBLISHER_MQTT_KEEP_ALIVE_SECS"@) is Err
            ||| bool_setting(vars, flag_var(s)) is Err
            ||| setting(vars, "REPUBLISHER_MQTT_PAYLOAD_FORMAT"@) matches Some(raw) && named_format(
                raw,
            ) is None
            ||| setting(vars, "REPUBLISHER_CONNECTION_JSON"@) matches Some(raw) && parsed_object(
                raw,
            ) is Err
            ||| setting(vars, "REPUBLISHER_POINTS_JSON"@) is Some && import is Err
        }),
    ensures
        overrides(c, vars, secret, import).failed is Some,
{
    if overrides(c, vars, secret, import).failed is None {
        let (r1, r3) = lemma_parts(c, vars, secret, import);
        lemma_broker(going(c, Seq::empty()), vars);
        lemma_remaining(password_env_step(r1, vars, secret), vars);
    }
}

/// Whether a variable holds a secret itself.
pub open spec fn secret_var(key: Seq<char>) -> bool {
    key == "REPUBLISHER_MQTT_PASSWORD"@ || key == "REPUBLISHER_MQTT_CLIENT_KEY_PASSPHRASE"@
}

/// Whether two environments differ at most in what their secrets are: the same secrets are set, and
/// everything else is the same.
pub open spec fn same_but_secrets(a: Vars, b: Vars) -> bool {
    forall|key: Seq<char>|
        if secret_var(key) {
            (#[trigger] setting(a, key) is Some) == (setting(b, key) is Some)
        } else {
            setting(a, key) == setting(b, key)
        }
}

/// Whether two runs differ at most in the secrets that they hold.
spec fn alike(r: Run, q: Run) -> bool {
    &&& r.notes == q.notes
    &&& r.failed == q.failed
    &&& dto::without_secrets(r.config) == dto::without_secrets(q.config)
}

/// The variables that are no secrets are the same.
proof fn lemma_same_settings(a: Vars, b: Vars)
    requires
        same_but_secrets(a, b),
    ensures
        setting(a, "REPUBLISHER_MQTT_HOST"@) == setting(b, "REPUBLISHER_MQTT_HOST"@),
        setting(a, "REPUBLISHER_MQTT_CLIENT_ID"@) == setting(b, "REPUBLISHER_MQTT_CLIENT_ID"@),
        setting(a, "REPUBLISHER_MQTT_TOPIC_PREFIX"@) == setting(b, "REPUBLISHER_MQTT_TOPIC_PREFIX"@),
        setting(a, "REPUBLISHER_MQTT_HEALTH_TOPIC"@) == setting(b, "REPUBLISHER_MQTT_HEALTH_TOPIC"@),
        setting(a, "REPUBLISHER_MQTT_USERNAME"@) == setting(b, "REPUBLISHER_MQTT_USERNAME"@),
        setting(a, "REPUBLISHER_MQTT_CA_CERT"@) == setting(b, "REPUBLISHER_MQTT_CA_CERT"@),
        setting(a, "REPUBLISHER_MQTT_CLIENT_CERT"@) == setting(b, "REPUBLISHER_MQTT_CLIENT_CERT"@),
        setting(a, "REPUBLISHER_MQTT_CLIENT_KEY"@) == setting(b, "REPUBLISHER_MQTT_CLIENT_KEY"@),
        setting(a, "REPUBLISHER_MQTT_DEVICE_TOPIC_PREFIX"@) == setting(b, "REPUBLISHER_MQTT_DEVICE_TOPIC_PREFIX"@),
        setting(a, "REPUBLISHER_MQTT_TLS"@) == setting(b, "REPUBLISHER_MQTT_TLS"@),
        setting(a, "REPUBLISHER_MQTT_RETAIN"@) == setting(b, "REPUBLISHER_MQTT_RETAIN"@),
        setting(a, "REPUBLISHER_AUTOSTART"@) == setting(b, "REPUBLISHER_AUTOSTART"@),
        setting(a, "REPUBLISHER_DISCOVER_ON_START"@) == setting(b, "REPUBLISHER_DISCOVER_ON_START"@),
        setting(a, "REPUBLISHER_PROTOCOL"@) == setting(b, "REPUBLISHER_PROTOCOL"@),
        setting(a, "REPUBLISHER_MQTT_PORT"@) == setting(b, "REPUBLISHER_MQTT_PORT"@),
        setting(a, "REPUBLISHER_MQTT_KEEP_ALIVE_SECS"@) == setting(b, "REPUBLISHER_MQTT_KEEP_ALIVE_SECS"@),
        setting(a, "REPUBLISHER_MQTT_PAYLOAD_FORMAT"@) == setting(b, "REPUBLISHER_MQTT_PAYLOAD_FORMAT"@),
        setting(a, "REPUBLISHER_MQTT_PASSWORD_ENV"@) == setting(b, "REPUBLISHER_MQTT_PASSWORD_ENV"@),
        setting(a, "REPUBLISHER_POINTS_JSON"@) == setting(b, "REPUBLISHER_POINTS_JSON"@),
        setting(a, "REPUBLISHER_CONNECTION_JSON"@) == setting(b, "REPUBLISHER_CONNECTION_JSON"@),
        (setting(a, "REPUBLISHER_MQTT_PASSWORD"@) is Some) == (setting(
            b,
            "REPUBLISHER_MQTT_PASSWORD"@,
        ) is Some),
        (setting(a, "REPUBLISHER_MQTT_CLIENT_KEY_PASSPHRASE"@) is Some) == (setting(
            b,
            "REPUBLISHER_MQTT_CLIENT_KEY_PASSPHRASE"@,
        ) is Some),
{
    reveal_strlit("REPUBLISHER_MQTT_PASSWORD");
    assert("REPUBLISHER_MQTT_PASSWORD"@.len() == 25);
    reveal_strlit("REPUBLISHER_MQTT_CLIENT_KEY_PASSPHRASE");
    assert("REPUBLISHER_MQTT_CLIENT_KEY_PASSPHRASE"@.len() == 38);
    reveal_strlit("REPUBLISHER_MQTT_HOST");
    assert("REPUBLISHER_MQTT_HOST"@.len() == 21);
    reveal_strlit("REPUBLISHER_MQTT_CLIENT_ID");
    assert("REPUBLISHER_MQTT_CLIENT_ID"@.len() == 26);
    reveal_strlit("REPUBLISHER_MQTT_TOPIC_PREFIX");
    assert("REPUBLISHER_MQTT_TOPIC_PREFIX"@.len() == 29);
    reveal_strlit("REPUBLISHER_MQTT_HEALTH_TOPIC");
    assert("REPUBLISHER_MQTT_HEALTH_TOPIC"@.len() == 29);
    reveal_strlit("REPUBLISHER_MQTT_USERNAME");
    assert("REPUBLISHER_MQTT_USERNAME"@.len() == 25);
    assert("REPUBLISHER_MQTT_USERNAME"@[17] == 'U' && "REPUBLISHER_MQTT_PASSWORD"@[17] == 'P');
    reveal_strlit("REPUBLISHER_MQTT_CA_CERT");
    assert("REPUBLISHER_MQTT_CA_CERT"@.len() == 24);
    reveal_strlit("REPUBLISHER_MQTT_CLIENT_CERT");
    assert("REPUBLISHER_MQTT_CLIENT_CERT"@.len() == 28);
    reveal_strlit("REPUBLISHER_MQTT_CLIENT_KEY");
    assert("REPUBLISHER_MQTT_CLIENT_KEY"@.len() == 27);
    reveal_strlit("REPUBLISHER_MQTT_DEVICE_TOPIC_PREFIX");
    assert("REPUBLISHER_MQTT_DEVICE_TOPIC_PREFIX"@.len() == 36);
    reveal_strlit("REPUBLISHER_MQTT_TLS");
    assert("REPUBLISHER_MQTT_TLS"@.len() == 20);
    reveal_strlit("REPUBLISHER_MQTT_RETAIN");
    assert("REPUBLISHER_MQTT_RETAIN"@.len() == 23);
    reveal_strlit("REPUBLISHER_AUTOSTART");
    assert("REPUBLISHER_AUTOSTART"@.len() == 21);
    reveal_strlit("REPUBLISHER_DISCOVER_ON_START");
    assert("REPUBLISHER_DISCOVER_ON_START"@.len() == 29);
    reveal_strlit("REPUBLISHER_PROTOCOL");
    assert("REPUBLISHER_PROTOCOL"@.len() == 20);
    reveal_strlit("REPUBLISHER_MQTT_PORT");
    assert("REPUBLISHER_MQTT_PORT"@.len() == 21);
    reveal_strlit("REPUBLISHER_MQTT_KEEP_ALIVE_SECS");
    assert("REPUBLISHER_MQTT_KEEP_ALIVE_SECS"@.len() == 32);
    reveal_strlit("REPUBLISHER_MQTT_PAYLOAD_FORMAT");
    assert("REPUBLISHER_MQTT_PAYLOAD_FORMAT"@.len() == 31);
    reveal_strlit("REPUBLISHER_MQTT_PASSWORD_ENV");
    assert("REPUBLISHER_MQTT_PASSWORD_ENV"@.len() == 29);
    reveal_strlit("REPUBLISHER_POINTS_JSON");
    assert("REPUBLISHER_POINTS_JSON"@.len() == 23);
    reveal_strlit("REPUBLISHER_CONNECTION_JSON");
    assert("REPUBLISHER_CONNECTION_JSON"@.len() == 27);
    assert(!secret_var("REPUBLISHER_MQTT_HOST"@));
    assert(!secret_var("REPUBLISHER_MQTT_CLIENT_ID"@));
    assert(!secret_var("REPUBLISHER_MQTT_TOPIC_PREFIX"@));
    assert(!secret_var("REPUBLISHER_MQTT_HEALTH_TOPIC"@));
    assert(!secret_var("REPUBLISHER_MQTT_USERNAME"@));
    assert(!secret_var("REPUBLISHER_MQTT_CA_CERT"@));
    assert(!secret_var("REPUBLISHER_MQTT_CLIENT_CERT"@));
    assert(!secret_var("REPUBLISHER_MQTT_CLIENT_KEY"@));
    assert(!secret_var("REPUBLISHER_MQTT_DEVICE_TOPIC_PREFIX"@));
    assert(!secret_var("REPUBLISHER_MQTT_TLS"@));
    assert(!secret_var("REPUBLISHER_MQTT_RETAIN"@));
    assert(!secret_var("REPUBLISHER_AUTOSTART"@));
    assert(!secret_var("REPUBLISHER_DISCOVER_ON_START"@));
    assert(!secret_var("REPUBLISHER_PROTOCOL"@));
    assert(!secret_var("REPUBLISHER_MQTT_PORT"@));
    assert(!secret_var("REPUBLISHER_MQTT_KEEP_ALIVE_SECS"@));
    assert(!secret_var("REPUBLISHER_MQTT_PAYLOAD_FORMAT"@));
    assert(!secret_var("REPUBLISHER_MQTT_PASSWORD_ENV"@));
    assert(!secret_var("REPUBLISHER_POINTS_JSON"@));
    assert(!secret_var("REPUBLISHER_CONNECTION_JSON"@));
}

proof fn lemma_alike_text(r: Run, q: Run, a: Vars, b: Vars, s: TextSetting)
    requires
        alike(r, q),
        if s == TextSetting::Password || s == TextSetting::ClientKeyPassphrase {
            (setting(a, text_var(s)) is Some) == (setting(b, text_var(s)) is Some)
        } else {
            setting(a, text_var(s)) == setting(b, text_var(s))
        },
    ensures
        alike(text_step(r, a, s), text_step(q, b, s)),
{
    reveal(text_step);
}

proof fn lemma_alike_flag(r: Run, q: Run, a: Vars, b: Vars, s: FlagSetting)
    requires
        alike(r, q),
        setting(a, flag_var(s)) == setting(b, flag_var(s)),
    ensures
        alike(flag_step(r, a, s), flag_step(q, b, s)),
{
    reveal(flag_step);
}

proof fn lemma_alike_protocol(r: Run, q: Run, a: Vars, b: Vars)
    requires
        alike(r, q),
        setting(a, "REPUBLISHER_PROTOCOL"@) == setting(b, "REPUBLISHER_PROTOCOL"@),
    ensures
        alike(protocol_step(r, a), protocol_step(q, b)),
{
    reveal(protocol_step);
}

proof fn lemma_alike_port(r: Run, q: Run, a: Vars, b: Vars)
    requires
        alike(r, q),
        setting(a, "REPUBLISHER_MQTT_PORT"@) == setting(b, "REPUBLISHER_MQTT_PORT"@),
    ensures
        alike(port_step(r, a), port_step(q, b)),
{
    reveal(port_step);
}

proof fn lemma_alike_keep_alive(r: Run, q: Run, a: Vars, b: Vars)
    requires
        alike(r, q),
        setting(a, "REPUBLISHER_MQTT_KEEP_ALIVE_SECS"@) == setting(
            b,
            "REPUBLISHER_MQTT_KEEP_ALIVE_SECS"@,
        ),
    ensures
        alike(keep_alive_step(r, a), keep_alive_step(q, b)),
{
    reveal(keep_alive_step);
}

proof fn lemma_alike_format(r: Run, q: Run, a: Vars, b: Vars)
    requires
        alike(r, q),
        setting(a, "REPUBLISHER_MQTT_PAYLOAD_FORMAT"@) == setting(
            b,
            "REPUBLISHER_MQTT_PAYLOAD_FORMAT"@,
        ),
    ensures
        alike(format_step(r, a), format_step(q, b)),
{
    reveal(format_step);
}

proof fn lemma_alike_broker(r: Run, q: Run, a: Vars, b: Vars)
    requires
        alike(r, q),
        same_but_secrets(a, b),
    ensures
        alike(broker_steps(r, a), broker_steps(q, b)),
{
    reveal(broker_steps);
    lemma_same_settings(a, b);
    let (r1, q1) = (protocol_step(r, a), protocol_step(q, b));
    lemma_alike_protocol(r, q, a, b);
    let (r2, q2) = (text_step(r1, a, TextSetting::Host), text_step(q1, b, TextSetting::Host));
    lemma_alike_text(r1, q1, a, b, TextSetting::Host);
    let (r3, q3) = (port_step(r2, a), port_step(q2, b));
    lemma_alike_port(r2, q2, a, b);
    let (r4, q4) = (flag_step(r3, a, FlagSetting::Tls), flag_step(q3, b, FlagSetting::Tls));
    lemma_alike_flag(r3, q3, a, b, FlagSetting::Tls);
    let s5 = TextSetting::ClientId;
    let (r5, q5) = (text_step(r4, a, s5), text_step(q4, b, s5));
    lemma_alike_text(r4, q4, a, b, s5);
    let s6 = TextSetting::TopicPrefix;
    let (r6, q6) = (text_step(r5, a, s6), text_step(q5, b, s6));
    lemma_alike_text(r5, q5, a, b, s6);
    let s7 = TextSetting::HealthTopic;
    let (r7, q7) = (text_step(r6, a, s7), text_step(q6, b, s7));
    lemma_alike_text(r6, q6, a, b, s7);
    let s8 = TextSetting::Username;
    let (r8, q8) = (text_step(r7, a, s8), text_step(q7, b, s8));
    lemma_alike_text(r7, q7, a, b, s8);
    lemma_alike_text(r8, q8, a, b, TextSetting::Password);
}

proof fn lemma_alike_remaining(r: Run, q: Run, a: Vars, b: Vars)
    requires
        alike(r, q),
        same_but_secrets(a, b),
    ensures
        alike(remaining_steps(r, a), remaining_steps(q, b)),
{
    reveal(remaining_steps);
    lemma_same_settings(a, b);
    let s1 = TextSetting::CaCert;
    let (r1, q1) = (text_step(r, a, s1), text_step(q, b, s1));
    lemma_alike_text(r, q, a, b, s1);
    let s2 = TextSetting::ClientCert;
    let (r2, q2) = (text_step(r1, a, s2), text_step(q1, b, s2));
    lemma_alike_text(r1, q1, a, b, s2);
    let s3 = TextSetting::ClientKey;
    let (r3, q3) = (text_step(r2, a, s3), text_step(q2, b, s3));
    lemma_alike_text(r2, q2, a, b, s3);
    let s4 = TextSetting::ClientKeyPassphrase;
    let (r4, q4) = (text_step(r3, a, s4), text_step(q3, b, s4));
    lemma_alike_text(r3, q3, a, b, s4);
    let s5 = FlagSetting::Retain;
    let (r5, q5) = (flag_step(r4, a, s5), flag_step(q4, b, s5));
    lemma_alike_flag(r4, q4, a, b, s5);
    let (r6, q6) = (keep_alive_step(r5, a), keep_alive_step(q5, b));
    lemma_alike_keep_alive(r5, q5, a, b);
    let (r7, q7) = (format_step(r6, a), format_step(q6, b));
    lemma_alike_format(r6, q6, a, b);
    let s8 = TextSetting::DeviceTopicPrefix;
    let (r8, q8) = (text_step(r7, a, s8), text_step(q7, b, s8));
    lemma_alike_text(r7, q7, a, b, s8);
    let s9 = FlagSetting::Autostart;
    let (r9, q9) = (flag_step(r8, a, s9), flag_step(q8, b, s9));
    lemma_alike_flag(r8, q8, a, b, s9);
    lemma_alike_flag(r9, q9, a, b, FlagSetting::DiscoverOnStart);
}

/// The step that takes the named secret.
proof fn lemma_alike_password_env(
    r: Run,
    q: Run,
    a: Vars,
    b: Vars,
    secret: Option<Seq<char>>,
    other: Option<Seq<char>>,
)
    requires
        alike(r, q),
        setting(a, "REPUBLISHER_MQTT_PASSWORD_ENV"@) == setting(b, "REPUBLISHER_MQTT_PASSWORD_ENV"@),
        (secret is Some) == (other is Some),
    ensures
        alike(password_env_step(r, a, secret), password_env_step(q, b, other)),
{
    let (x, y) = (dto::without_secrets(r.config), dto::without_secrets(q.config));
    assert(x.mqtt == y.mqtt);
}

/// No secret gets into a note, into an error or into another setting: environments that differ in
/// their secrets alone, the one in a named variable too, give the same notes, stop at the same error
/// if any, and give configurations that differ in the two secrets alone, which hold the variables'
/// values as they are.
#[verifier::spinoff_prover]
#[verifier::rlimit(30)]
pub proof fn law_secrets_stay_out_of_notes(
    c: config::ConfigModel,
    a: Vars,
    b: Vars,
    secret: Option<Seq<char>>,
    other: Option<Seq<char>>,
    import: Result<MergedModel, Seq<char>>,
)
    requires
        same_but_secrets(a, b),
        (secret is Some) == (other is Some),
    ensures
        ({
            let r = overrides(c, a, secret, import);
            let q = overrides(c, b, other, import);
            let named = setting(a, "REPUBLISHER_MQTT_PASSWORD_ENV"@);
            &&& r.notes == q.notes
            &&& r.failed == q.failed
            &&& dto::without_secrets(r.config) == dto::without_secrets(q.config)
            &&& r.failed is None ==> r.config.mqtt.password == if named is Some && secret is Some {
                secret
            } else {
                chosen_opt(setting(a, "REPUBLISHER_MQTT_PASSWORD"@), c.mqtt.password)
            }
            &&& r.failed is None ==> r.config.mqtt.client_key_passphrase == chosen_opt(
                setting(a, "REPUBLISHER_MQTT_CLIENT_KEY_PASSPHRASE"@),
                c.mqtt.client_key_passphrase,
            )
        }),
{
    lemma_same_settings(a, b);
    let start = going(c, Seq::empty());
    lemma_alike_broker(start, start, a, b);
    let (r1, q1) = (broker_steps(start, a), broker_steps(start, b));
    let (r2, q2) = (password_env_step(r1, a, secret), password_env_step(q1, b, other));
    lemma_alike_password_env(r1, q1, a, b, secret, other);
    lemma_alike_remaining(r2, q2, a, b);
    let (r3, q3) = (remaining_steps(r2, a), remaining_steps(q2, b));
    let (r4, q4) = (env_connection_step(r3, a), env_connection_step(q3, b));
    assert(alike(r4, q4)) by {
        assert(config::connection_of(r3.config) == config::connection_of(q3.config)) by {
            let (x, y) = (dto::without_secrets(r3.config), dto::without_secrets(q3.config));
            assert(x.protocol == y.protocol && x.connections == y.connections);
        }
    }
    if overrides(c, a, secret, import).failed is None {
        law_password_indirection(c, a, secret, import);
        law_environment_wins(c, a, secret, import, TextSetting::ClientKeyPassphrase);
    }
}

} // verus!
