//! Laws of the settings and of the choice of a protocol.

use vstd::prelude::*;

use crate::config;
use crate::config::AppConfig;
use crate::json::{Json, JsonModel};
use crate::laws::{member, same_but_config, says, sends_on};
use crate::model::Addressing;
use crate::text;
use crate::web::api::{
    apply_secret, non_empty, put_settings, set_protocol, AfterSave, ApiError, ProtocolReq,
    SettingsReq,
};
use crate::web::dto;
use crate::web::state;
use crate::web::state::WebState;

verus! {

/// After a settings request every plain broker setting holds the value of the request's field of
/// the same name.
pub proof fn law_plain_settings(w: &mut WebState, req: SettingsReq, r: AfterSave)
    requires
        call_ensures(put_settings, (w, req), r),
    ensures
        ({
            let now = final(w)@.shared.config.mqtt;
            &&& now.host == req.mqtt.host@
            &&& now.port == req.mqtt.port
            &&& now.use_tls == req.mqtt.use_tls
            &&& now.client_id == req.mqtt.client_id@
            &&& now.topic_prefix == req.mqtt.topic_prefix@
            &&& now.health_topic == req.mqtt.health_topic@
            &&& now.remember_secrets == req.mqtt.remember_secrets
            &&& now.retain == req.mqtt.retain
            &&& now.payload_format == req.mqtt.payload_format
            &&& now.device_topic_prefix == req.mqtt.device_topic_prefix@
            &&& now.autostart == req.mqtt.autostart
            &&& req.mqtt.keep_alive_secs >= 1 ==> now.keep_alive_secs == req.mqtt.keep_alive_secs
            &&& req.mqtt.keep_alive_secs == 0 ==> now.keep_alive_secs == 1
        }),
{
}

/// Whether an optional setting is what was sent for it: the text without surrounding white space,
/// and nothing where there is no more than white space or nothing was sent.
pub open spec fn as_sent(now: Option<Seq<char>>, sent: Option<Seq<char>>) -> bool {
    match sent {
        None => now is None,
        Some(s) => {
            &&& text::trimmed(s).len() > 0 ==> now == Some(text::trimmed(s))
            &&& text::trimmed(s).len() == 0 ==> now is None
        },
    }
}

/// After a settings request every optional setting is what was sent for it.
pub proof fn law_optional_settings(w: &mut WebState, req: SettingsReq, r: AfterSave)
    requires
        call_ensures(put_settings, (w, req), r),
    ensures
        ({
            let now = final(w)@.shared.config.mqtt;
            &&& as_sent(now.username, text::opt(req.mqtt.username))
            &&& as_sent(now.ca_cert_path, text::opt(req.mqtt.ca_cert_path))
            &&& as_sent(now.client_cert_path, text::opt(req.mqtt.client_cert_path))
            &&& as_sent(now.client_key_path, text::opt(req.mqtt.client_key_path))
        }),
{
}

/// Whether a secret was written as asked: one that was not sent is kept, an empty one is cleared,
/// and any other replaces the stored one as it is.
pub open spec fn as_written(
    now: Option<Seq<char>>,
    stored: Option<Seq<char>>,
    sent: Option<Seq<char>>,
) -> bool {
    match sent {
        None => now == stored,
        Some(s) => {
            &&& s.len() == 0 ==> now is None
            &&& s.len() > 0 ==> now == Some(s)
        },
    }
}

/// After a settings request each secret was written as asked, the name of a variable that holds
/// one stays, and nothing but the broker settings and the theme changes. A theme that is not sent
/// stays.
pub proof fn law_secrets_and_the_rest(w: &mut WebState, req: SettingsReq, r: AfterSave)
    requires
        call_ensures(put_settings, (w, req), r),
    ensures
        r == AfterSave::Config,
        ({
            let was = old(w)@.shared.config;
            let now = final(w)@.shared.config;
            &&& as_written(now.mqtt.password, was.mqtt.password, text::opt(req.mqtt.password))
            &&& as_written(
                now.mqtt.client_key_passphrase,
                was.mqtt.client_key_passphrase,
                text::opt(req.mqtt.client_key_passphrase),
            )
            &&& now.mqtt.password_env == was.mqtt.password_env
            &&& match req.ui {
                Some(ui) => now.theme == ui.theme@,
                None => now.theme == was.theme,
            }
            &&& now.protocol == was.protocol
            &&& now.connections == was.connections
            &&& now.points == was.points
            &&& now.discover_on_start == was.discover_on_start
            &&& same_but_config(old(w)@, final(w)@)
        }),
{
}

/// Two requests that say the same leave the same settings, whatever was stored before, but for what
/// a request does not name: the secrets that it does not send, and the name of a variable.
pub proof fn law_settings_forget(
    v: &mut WebState,
    w: &mut WebState,
    req: SettingsReq,
    r: AfterSave,
    s: AfterSave,
)
    requires
        call_ensures(put_settings, (v, req), r),
        call_ensures(put_settings, (w, req), s),
        req.mqtt.password is Some,
        req.mqtt.client_key_passphrase is Some,
        old(v)@.shared.config.mqtt.password_env == old(w)@.shared.config.mqtt.password_env,
    ensures
        final(v)@.shared.config.mqtt == final(w)@.shared.config.mqtt,
{
}

/// One optional text is what was sent for it, and one secret is written as asked.
pub proof fn law_single_fields(
    value: Option<String>,
    r: Option<String>,
    current: &mut Option<String>,
    update: Option<String>,
)
    requires
        call_ensures(non_empty, (value,), r),
        call_ensures(apply_secret, (current, update), ()),
    ensures
        as_sent(text::opt(r), text::opt(value)),
        as_written(text::opt(*final(current)), text::opt(*old(current)), text::opt(update)),
{
}

/// Choosing a protocol that there is an adapter for makes it the active one, forgets the devices
/// and the browsed points, and tells the browsers all three; everything else stays. Any other
/// protocol is refused, and nothing changes.
pub proof fn law_choosing_a_protocol(w: &mut WebState, req: ProtocolReq, r: Result<Json, ApiError>)
    requires
        call_ensures(set_protocol, (w, req), r),
    ensures
        ({
            let before = old(w)@;
            let after = final(w)@;
            let n = before.sent.len() as int;
            &&& r is Ok <==> before.caps.dom().contains(req.id@)
            &&& r matches Err(e) ==> after == before && e.status == 400 && e.message@
                == "unknown protocol '"@ + req.id@ + "'"@
            &&& r matches Ok(body) ==> {
                &&& member(body@, "ok"@) == Some(JsonModel::Bool(true))
                &&& after.shared.config.protocol == req.id@
                &&& after.shared.devices.len() == 0
                &&& after.shared.browsed.len() == 0
                &&& after == (state::WebModel {
                    shared: state::SharedModel {
                        config: config::ConfigModel {
                            protocol: after.shared.config.protocol,
                            ..before.shared.config
                        },
                        devices: after.shared.devices,
                        browsed: after.shared.browsed,
                        ..before.shared
                    },
                    sent: after.sent,
                    ..before
                })
                &&& sends_on(before.sent, after.sent, 3)
                &&& says(after.sent[n], "type"@, "config"@)
                &&& member(after.sent[n], "config"@) == Some(
                    dto::redacted_json(after.shared.config),
                )
                &&& says(after.sent[n + 1], "type"@, "devices"@)
                &&& member(after.sent[n + 1], "devices"@) == Some(JsonModel::List(Seq::empty()))
                &&& says(after.sent[n + 2], "type"@, "browsed"@)
                &&& member(after.sent[n + 2], "points"@) == Some(JsonModel::List(Seq::empty()))
            }
        }),
{
    reveal_strlit("type");
    reveal_strlit("config");
    reveal_strlit("devices");
    reveal_strlit("points");
    assert("type"@.len() == 4);
    assert("config"@.len() == 6);
    assert("devices"@.len() == 7);
    assert("points"@.len() == 6);
    assert("config"@[0] == 'c');
    assert("points"@[0] == 'p');
    let n = old(w)@.sent.len() as int;
    if r is Ok {
        assert(final(w)@.sent.take(n) =~= old(w)@.sent);
    }
}

/// The connection settings that are read are those that were last written for the active protocol;
/// where none were, there are none.
pub proof fn law_connection(
    c: &AppConfig,
    d: &mut AppConfig,
    settings: Addressing,
    r: Addressing,
    other: Seq<char>,
)
    requires
        call_ensures(AppConfig::connection, (c,), r),
        call_ensures(AppConfig::set_connection, (d, settings), ()),
    ensures
        c@.connections.dom().contains(c@.protocol) ==> r@ == c@.connections[c@.protocol],
        !c@.connections.dom().contains(c@.protocol) ==> r@.dom() =~= Set::empty(),
        *c == *final(d) ==> r@ == settings@,
        final(d)@ == (config::ConfigModel {
            connections: final(d)@.connections,
            ..old(d)@
        }),
        other != old(d)@.protocol ==> final(d)@.connections.dom().contains(other)
            == old(d)@.connections.dom().contains(other) && final(d)@.connections[other] == old(
            d,
        )@.connections[other],
{
}

} // verus!
