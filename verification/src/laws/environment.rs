//! Laws of the environment over the stored configuration.

use vstd::prelude::*;
use vstd::string::*;

use crate::config;
use crate::config::{AppConfig, MqttConfig};
use crate::error;
use crate::error::BootError;
use crate::model;
use crate::model::Value;
use crate::text;
use crate::web::auth::EnvVars;
use crate::web::envcfg;
use crate::web::envcfg::{
    apply_env_overrides, env, env_bool, env_parse, merge_connection, secret_source, FlagSetting,
    MergedPoints, Run, TextSetting, Vars,
};

verus! {

/// What a variable is set to; none where it is not set or set to no more than white space.
pub open spec fn given(vars: Vars, key: Seq<char>) -> Option<Seq<char>> {
    if vars.dom().contains(key) && text::trimmed(vars[key]).len() > 0 {
        Some(vars[key])
    } else {
        None
    }
}

/// A text as it is read where neither case nor surrounding white space counts.
pub open spec fn plainly(raw: Seq<char>) -> Seq<char> {
    text::lowered(text::trimmed(raw))
}

/// A text of the environment where it is given, and else the stored one.
pub open spec fn over(given: Option<Seq<char>>, stored: Seq<char>) -> Seq<char> {
    match given {
        Some(v) => v,
        None => stored,
    }
}

/// An optional text of the environment where it is given, and else the stored one.
pub open spec fn over_opt(
    given: Option<Seq<char>>,
    stored: Option<Seq<char>>,
) -> Option<Seq<char>> {
    match given {
        Some(v) => Some(v),
        None => stored,
    }
}

/// Whether a truth value is that of the environment where it is given, and else the stored one.
pub open spec fn flag_over(vars: Vars, key: Seq<char>, stored: bool, now: bool) -> bool {
    match given(vars, key) {
        None => now == stored,
        Some(raw) => {
            &&& yes(raw) || no(raw)
            &&& now == yes(raw)
        },
    }
}

/// Whether a text means yes.
pub open spec fn yes(raw: Seq<char>) -> bool {
    let w = plainly(raw);
    w == "1"@ || w == "true"@ || w == "yes"@ || w == "on"@
}

/// Whether a text means no.
pub open spec fn no(raw: Seq<char>) -> bool {
    let w = plainly(raw);
    w == "0"@ || w == "false"@ || w == "no"@ || w == "off"@
}

/// A variable that is set to no more than white space counts as not set, and any other has its
/// value as it is.
pub proof fn law_given(vars: &EnvVars, key: &str, r: Option<String>)
    requires
        call_ensures(env, (vars, key), r),
    ensures
        text::opt(r) == given(vars@, key@),
{
}

/// A truth value is one of eight words, in any case and with white space around it; any other word
/// is refused, with the variable and the word.
pub proof fn law_env_bool(vars: &EnvVars, key: &str, r: Result<Option<bool>, BootError>)
    requires
        call_ensures(env_bool, (vars, key), r),
    ensures
        match given(vars@, key@) {
            None => r matches Ok(b) && b is None,
            Some(raw) => {
                &&& yes(raw) ==> r is Ok && r->Ok_0 == Some(true)
                &&& no(raw) ==> r is Ok && r->Ok_0 == Some(false)
                &&& !yes(raw) && !no(raw) ==> r is Err && r->Err_0.cause is None
                    && r->Err_0.message@ == key@ + ": expected a boolean, got '"@ + plainly(raw)
                    + "'"@
            },
        },
{
    reveal_strlit("1");
    reveal_strlit("true");
    reveal_strlit("yes");
    reveal_strlit("on");
    reveal_strlit("0");
    reveal_strlit("false");
    reveal_strlit("no");
    reveal_strlit("off");
    assert("1"@.len() == 1);
    assert("true"@.len() == 4);
    assert("yes"@.len() == 3);
    assert("on"@.len() == 2);
    assert("0"@.len() == 1);
    assert("false"@.len() == 5);
    assert("no"@.len() == 2);
    assert("off"@.len() == 3);
    assert("1"@[0] == '1');
    assert("0"@[0] == '0');
    assert("yes"@[0] == 'y');
    assert("off"@[0] == 'o');
    assert("on"@[0] == 'o');
    assert("no"@[0] == 'n');
}

/// No word means both.
pub proof fn law_yes_is_not_no(raw: Seq<char>)
    ensures
        !(yes(raw) && no(raw)),
{
    reveal_strlit("1");
    reveal_strlit("true");
    reveal_strlit("yes");
    reveal_strlit("on");
    reveal_strlit("0");
    reveal_strlit("false");
    reveal_strlit("no");
    reveal_strlit("off");
    assert("1"@.len() == 1);
    assert("true"@.len() == 4);
    assert("yes"@.len() == 3);
    assert("on"@.len() == 2);
    assert("0"@.len() == 1);
    assert("false"@.len() == 5);
    assert("no"@.len() == 2);
    assert("off"@.len() == 3);
    assert("1"@[0] == '1');
    assert("0"@[0] == '0');
    assert("yes"@[0] == 'y');
    assert("off"@[0] == 'o');
    assert("on"@[0] == 'o');
    assert("no"@[0] == 'n');
}

/// Two environments whose values differ in case and surrounding white space alone mean the same.
pub proof fn law_case_does_not_count(
    a: &EnvVars,
    b: &EnvVars,
    key: &str,
    r: Result<Option<bool>, BootError>,
    s: Result<Option<bool>, BootError>,
)
    requires
        call_ensures(env_bool, (a, key), r),
        call_ensures(env_bool, (b, key), s),
        given(a@, key@) is Some,
        given(b@, key@) is Some,
        plainly(given(a@, key@)->Some_0) == plainly(given(b@, key@)->Some_0),
    ensures
        r is Ok <==> s is Ok,
        r is Ok ==> r->Ok_0 == s->Ok_0,
{
}

/// A number is read without the white space around it; what is none, or too large, is refused with
/// the variable.
pub proof fn law_env_numbers(
    vars: &EnvVars,
    key: &str,
    small: Result<Option<u16>, BootError>,
    large: Result<Option<u64>, BootError>,
)
    requires
        call_ensures(env_parse::<u16>, (vars, key), small),
        call_ensures(env_parse::<u64>, (vars, key), large),
    ensures
        match given(vars@, key@) {
            None => small is Ok && small->Ok_0 is None && large is Ok && large->Ok_0 is None,
            Some(raw) => {
                let s = text::number(text::trimmed(raw), 65535);
                let l = text::number(text::trimmed(raw), 0xffff_ffff_ffff_ffff);
                &&& s matches Some(n) ==> small is Ok && small->Ok_0 is Some
                    && small->Ok_0->Some_0 == n
                &&& s is None ==> small is Err && text::begins(small->Err_0.message@, key@ + ": "@)
                &&& l matches Some(n) ==> large is Ok && large->Ok_0 is Some
                    && large->Ok_0->Some_0 == n
                &&& l is None ==> large is Err && text::begins(large->Err_0.message@, key@ + ": "@)
            },
        },
{
    if let Some(raw) = given(vars@, key@) {
        if small is Err {
            let m = small->Err_0.message@;
            assert(m.take((key@ + ": "@).len() as int) =~= key@ + ": "@);
        }
        if large is Err {
            let m = large->Err_0.message@;
            assert(m.take((key@ + ": "@).len() as int) =~= key@ + ": "@);
        }
    }
}

/// Every setting of the environment that is given holds afterwards, and every one that is not stays
/// as it was stored.
pub proof fn law_settings_of_the_environment(
    c: &mut AppConfig,
    vars: &EnvVars,
    secret: Option<String>,
    import: Result<MergedPoints, String>,
    r: Result<Vec<String>, BootError>,
)
    requires
        call_ensures(apply_env_overrides, (c, vars, secret, import), r),
        r is Ok,
    ensures
        ({
            let was = old(c)@;
            let now = final(c)@;
            let v = vars@;
            &&& now.mqtt.host == over(given(v, "REPUBLISHER_MQTT_HOST"@), was.mqtt.host)
            &&& now.mqtt.client_id == over(
                given(v, "REPUBLISHER_MQTT_CLIENT_ID"@),
                was.mqtt.client_id,
            )
            &&& now.mqtt.topic_prefix == over(
                given(v, "REPUBLISHER_MQTT_TOPIC_PREFIX"@),
                was.mqtt.topic_prefix,
            )
            &&& now.mqtt.health_topic == over(
                given(v, "REPUBLISHER_MQTT_HEALTH_TOPIC"@),
                was.mqtt.health_topic,
            )
            &&& now.mqtt.username == over_opt(
                given(v, "REPUBLISHER_MQTT_USERNAME"@),
                was.mqtt.username,
            )
            &&& now.mqtt.ca_cert_path == over_opt(
                given(v, "REPUBLISHER_MQTT_CA_CERT"@),
                was.mqtt.ca_cert_path,
            )
            &&& now.mqtt.client_cert_path == over_opt(
                given(v, "REPUBLISHER_MQTT_CLIENT_CERT"@),
                was.mqtt.client_cert_path,
            )
            &&& now.mqtt.client_key_path == over_opt(
                given(v, "REPUBLISHER_MQTT_CLIENT_KEY"@),
                was.mqtt.client_key_path,
            )
            &&& now.mqtt.client_key_passphrase == over_opt(
                given(v, "REPUBLISHER_MQTT_CLIENT_KEY_PASSPHRASE"@),
                was.mqtt.client_key_passphrase,
            )
            &&& now.mqtt.device_topic_prefix == over(
                given(v, "REPUBLISHER_MQTT_DEVICE_TOPIC_PREFIX"@),
                was.mqtt.device_topic_prefix,
            )
            &&& flag_over(v, "REPUBLISHER_MQTT_TLS"@, was.mqtt.use_tls, now.mqtt.use_tls)
            &&& flag_over(v, "REPUBLISHER_MQTT_RETAIN"@, was.mqtt.retain, now.mqtt.retain)
            &&& flag_over(v, "REPUBLISHER_AUTOSTART"@, was.mqtt.autostart, now.mqtt.autostart)
            &&& flag_over(
                v,
                "REPUBLISHER_DISCOVER_ON_START"@,
                was.discover_on_start,
                now.discover_on_start,
            )
            &&& match given(v, "REPUBLISHER_PROTOCOL"@) {
                Some(p) => now.protocol == text::trimmed(p),
                None => now.protocol == was.protocol,
            }
            &&& match given(v, "REPUBLISHER_MQTT_PORT"@) {
                Some(p) => text::number(text::trimmed(p), 65535) == Some(now.mqtt.port as nat),
                None => now.mqtt.port == was.mqtt.port,
            }
            &&& match given(v, "REPUBLISHER_MQTT_KEEP_ALIVE_SECS"@) {
                Some(k) => match text::number(text::trimmed(k), 0xffff_ffff_ffff_ffff) {
                    Some(n) => now.mqtt.keep_alive_secs == if n == 0 {
                        1
                    } else {
                        n as int
                    },
                    None => false,
                },
                None => now.mqtt.keep_alive_secs == was.mqtt.keep_alive_secs,
            }
            &&& match given(v, "REPUBLISHER_MQTT_PAYLOAD_FORMAT"@) {
                Some(f) => {
                    &&& now.mqtt.payload_format is Scalar ==> plainly(f) == "scalar"@
                    &&& now.mqtt.payload_format is NetixEnvelope ==> plainly(f)
                        == "netix_envelope"@ || plainly(f) == "envelope"@
                },
                None => now.mqtt.payload_format == was.mqtt.payload_format,
            }
            &&& now.mqtt.remember_secrets == was.mqtt.remember_secrets
            &&& now.theme == was.theme
        }),
{
    let s = text::opt(secret);
    let i = envcfg::import_view(import);
    let (r1, r3) = envcfg::lemma_parts(old(c)@, vars@, s, i);
    envcfg::lemma_broker(envcfg::going(old(c)@, Seq::empty()), vars@);
    envcfg::lemma_remaining(envcfg::password_env_step(r1, vars@, s), vars@);
    lemma_words(vars@, "REPUBLISHER_MQTT_TLS"@);
    lemma_words(vars@, "REPUBLISHER_MQTT_RETAIN"@);
    lemma_words(vars@, "REPUBLISHER_AUTOSTART"@);
    lemma_words(vars@, "REPUBLISHER_DISCOVER_ON_START"@);
}

/// The words of a truth value.
proof fn lemma_words(vars: Vars, key: Seq<char>)
    ensures
        envcfg::bool_setting(vars, key) is Ok <==> (given(vars, key) matches Some(raw) ==> yes(raw)
            || no(raw)),
        envcfg::bool_setting(vars, key) is Ok ==> match given(vars, key) {
            None => envcfg::bool_setting(vars, key)->Ok_0 is None,
            Some(raw) => envcfg::bool_setting(vars, key)->Ok_0 == Some(yes(raw)),
        },
{
    if let Some(raw) = given(vars, key) {
        law_yes_is_not_no(raw);
    }
}

/// The password is what the named variable holds, where one is named and holds it; else the given
/// one; else the stored one. The name is kept.
pub proof fn law_password_of_the_environment(
    c: &mut AppConfig,
    vars: &EnvVars,
    secret: Option<String>,
    import: Result<MergedPoints, String>,
    r: Result<Vec<String>, BootError>,
)
    requires
        call_ensures(apply_env_overrides, (c, vars, secret, import), r),
        r is Ok,
    ensures
        ({
            let name = given(vars@, "REPUBLISHER_MQTT_PASSWORD_ENV"@);
            let direct = given(vars@, "REPUBLISHER_MQTT_PASSWORD"@);
            let now = final(c)@.mqtt;
            &&& now.password_env == over_opt(name, old(c)@.mqtt.password_env)
            &&& name is Some && secret is Some ==> now.password == Some(secret->Some_0@)
            &&& !(name is Some && secret is Some) ==> now.password == over_opt(
                direct,
                old(c)@.mqtt.password,
            )
        }),
{
    envcfg::law_password_indirection(
        old(c)@,
        vars@,
        text::opt(secret),
        envcfg::import_view(import),
    );
}

/// Where points are given, the configured points are afterwards exactly those that merging them
/// gave, whatever was stored; where none are given, they stay as they were stored.
pub proof fn law_points_of_the_environment(
    c: &mut AppConfig,
    vars: &EnvVars,
    secret: Option<String>,
    import: Result<MergedPoints, String>,
    r: Result<Vec<String>, BootError>,
)
    requires
        call_ensures(apply_env_overrides, (c, vars, secret, import), r),
        r is Ok,
    ensures
        given(vars@, "REPUBLISHER_POINTS_JSON"@) is Some ==> import is Ok && final(c)@.points
            == text::views(import->Ok_0.points@),
        given(vars@, "REPUBLISHER_POINTS_JSON"@) is None ==> final(c)@.points == old(c)@.points,
{
    let s = text::opt(secret);
    let i = envcfg::import_view(import);
    let (r1, r3) = envcfg::lemma_parts(old(c)@, vars@, s, i);
    envcfg::lemma_broker(envcfg::going(old(c)@, Seq::empty()), vars@);
    envcfg::lemma_remaining(envcfg::password_env_step(r1, vars@, s), vars@);
}

/// Whether members were set one after the other: each name that a member has holds the value of
/// the last such member, and every other name what it held.
pub open spec fn merged_into(
    now: model::AddressingModel,
    was: model::AddressingModel,
    members: Seq<(Seq<char>, model::ValueModel)>,
) -> bool {
    &&& forall|i: int|
        0 <= i < members.len() && (forall|j: int|
            i < j < members.len() ==> (#[trigger] members[j]).0 != members[i].0)
            ==> now.dom().contains((#[trigger] members[i]).0) && now[members[i].0] == members[i].1
    &&& forall|key: Seq<char>|
        (forall|j: int| 0 <= j < members.len() ==> (#[trigger] members[j]).0 != key) ==> (
        #[trigger] now.dom().contains(key)) == was.dom().contains(key) && (now.dom().contains(key)
            ==> now[key] == was[key])
}

/// What setting members one after the other gives.
#[verifier::spinoff_prover]
#[verifier::rlimit(40)]
proof fn lemma_merged(a: model::AddressingModel, members: Seq<(Seq<char>, model::ValueModel)>)
    ensures
        merged_into(envcfg::merged(a, members), a, members),
    decreases members.len(),
{
    if members.len() > 0 {
        let rest = members.drop_last();
        lemma_merged(a, rest);
        let now = envcfg::merged(a, members);
        let n = members.len() - 1;
        assert(members[n] == members.last());
        assert forall|i: int|
            0 <= i < members.len() && (forall|j: int|
                i < j < members.len() ==> (#[trigger] members[j]).0 != members[i].0)
            implies now.dom().contains((#[trigger] members[i]).0) && now[members[i].0]
            == members[i].1 by {
            if i < n {
                assert(members[n].0 != members[i].0);
                assert(rest[i] == members[i]);
                assert forall|j: int| i < j < rest.len() implies (#[trigger] rest[j]).0
                    != rest[i].0 by {
                    assert(members[j] == rest[j]);
                }
                assert(envcfg::merged(a, rest).dom().contains(rest[i].0));
            }
        }
        assert forall|key: Seq<char>|
            (forall|j: int| 0 <= j < members.len() ==> (#[trigger] members[j]).0 != key) implies (
        #[trigger] now.dom().contains(key)) == a.dom().contains(key) && (now.dom().contains(key)
            ==> now[key] == a[key]) by {
            assert(members[n].0 != key);
            assert forall|j: int| 0 <= j < rest.len() implies (#[trigger] rest[j]).0 != key by {
                assert(members[j] == rest[j]);
            }
            assert(envcfg::merged(a, rest).dom().contains(key) == a.dom().contains(key));
        }
    }
}

/// The connection of a configuration's active protocol; nothing where none is stored.
pub open spec fn active(c: config::ConfigModel, protocol: Seq<char>) -> model::AddressingModel {
    if c.connections.dom().contains(protocol) {
        c.connections[protocol]
    } else {
        Map::empty()
    }
}

/// Where a connection is given it is merged into that of the active protocol, member by member;
/// those of every other protocol stay, and where none is given all stay.
pub proof fn law_connection_of_the_environment(
    c: &mut AppConfig,
    vars: &EnvVars,
    secret: Option<String>,
    import: Result<MergedPoints, String>,
    r: Result<Vec<String>, BootError>,
    other: Seq<char>,
)
    requires
        call_ensures(apply_env_overrides, (c, vars, secret, import), r),
        r is Ok,
    ensures
        ({
            let was = old(c)@;
            let now = final(c)@;
            match given(vars@, "REPUBLISHER_CONNECTION_JSON"@) {
                None => now.connections == was.connections,
                Some(raw) => {
                    &&& envcfg::parsed_object(raw) is Ok
                    &&& now.protocol.len() > 0
                    &&& now.connections.dom().contains(now.protocol)
                    &&& merged_into(
                        now.connections[now.protocol],
                        active(was, now.protocol),
                        envcfg::parsed_object(raw)->Ok_0,
                    )
                    &&& other != now.protocol ==> now.connections.dom().contains(other)
                        == was.connections.dom().contains(other) && now.connections[other]
                        == was.connections[other]
                },
            }
        }),
{
    let s = text::opt(secret);
    let i = envcfg::import_view(import);
    let (r1, r3) = envcfg::lemma_parts(old(c)@, vars@, s, i);
    envcfg::lemma_broker(envcfg::going(old(c)@, Seq::empty()), vars@);
    envcfg::lemma_remaining(envcfg::password_env_step(r1, vars@, s), vars@);
    if let Some(raw) = given(vars@, "REPUBLISHER_CONNECTION_JSON"@) {
        if envcfg::parsed_object(raw) is Ok {
            lemma_merged(config::connection_of(r3.config), envcfg::parsed_object(raw)->Ok_0);
        }
    }
}

/// A parsed object is merged into the connection of the active protocol and into nothing else; it
/// needs a protocol, and what is no object is refused with the cause.
pub proof fn law_merge_connection(
    c: &mut AppConfig,
    notes: &mut Vec<String>,
    parsed: Result<Vec<(String, Value)>, String>,
    r: Result<(), BootError>,
)
    requires
        call_ensures(merge_connection, (c, notes, parsed), r),
    ensures
        ({
            let was = old(c)@;
            let now = final(c)@;
            &&& r is Ok <==> parsed is Ok && was.protocol.len() > 0
            &&& r is Err ==> now == was && text::views(final(notes)@) == text::views(old(notes)@)
            &&& parsed matches Err(e) ==> r is Err && text::opt(r->Err_0.cause) == Some(e@)
            &&& r is Ok ==> {
                &&& now == (config::ConfigModel { connections: now.connections, ..was })
                &&& now.connections == was.connections.insert(
                    was.protocol,
                    now.connections[was.protocol],
                )
                &&& merged_into(
                    now.connections[was.protocol],
                    active(was, was.protocol),
                    envcfg::member_views(parsed->Ok_0@),
                )
                &&& final(notes)@.len() == old(notes)@.len() + 1
            }
        }),
{
    if parsed is Ok && old(c)@.protocol.len() > 0 {
        lemma_merged(
            config::connection_of(old(c)@),
            envcfg::member_views(parsed->Ok_0@),
        );
        let notes_now = text::views(final(notes)@);
        assert(notes_now.len() == old(notes)@.len() + 1);
    }
}

/// The settings from which the core resolves a named secret are those of the environment up to the
/// password, with the name.
pub proof fn law_secret_source(c: AppConfig, vars: &EnvVars, r: Option<MqttConfig>)
    requires
        call_ensures(secret_source, (c, vars), r),
    ensures
        r is Some <==> given(vars@, "REPUBLISHER_MQTT_PASSWORD_ENV"@) is Some && bad_port(vars@)
            is None && bad_flag(vars@, "REPUBLISHER_MQTT_TLS"@) is None,
        r matches Some(m) ==> {
            &&& m@.password_env == given(vars@, "REPUBLISHER_MQTT_PASSWORD_ENV"@)
            &&& m@.password == over_opt(
                given(vars@, "REPUBLISHER_MQTT_PASSWORD"@),
                c@.mqtt.password,
            )
            &&& m@.host == over(given(vars@, "REPUBLISHER_MQTT_HOST"@), c@.mqtt.host)
            &&& m@.username == over_opt(
                given(vars@, "REPUBLISHER_MQTT_USERNAME"@),
                c@.mqtt.username,
            )
            &&& m@.client_id == over(
                given(vars@, "REPUBLISHER_MQTT_CLIENT_ID"@),
                c@.mqtt.client_id,
            )
            &&& m@.topic_prefix == over(
                given(vars@, "REPUBLISHER_MQTT_TOPIC_PREFIX"@),
                c@.mqtt.topic_prefix,
            )
            &&& m@.health_topic == over(
                given(vars@, "REPUBLISHER_MQTT_HEALTH_TOPIC"@),
                c@.mqtt.health_topic,
            )
            &&& m@.retain == c@.mqtt.retain
            &&& m@.client_key_passphrase == c@.mqtt.client_key_passphrase
        },
{
    lemma_broker_failure(envcfg::going(c@, Seq::empty()), vars@);
    if r is Some {
        envcfg::lemma_broker(envcfg::going(c@, Seq::empty()), vars@);
    }
}

/// The first of two reasons.
pub open spec fn first_of(
    a: Option<error::BootErrorModel>,
    b: Option<error::BootErrorModel>,
) -> Option<error::BootErrorModel> {
    match a {
        Some(e) => Some(e),
        None => b,
    }
}

/// What is wrong with a truth value, if anything is.
pub open spec fn bad_flag(vars: Vars, key: Seq<char>) -> Option<error::BootErrorModel> {
    match given(vars, key) {
        Some(raw) => if yes(raw) || no(raw) {
            None
        } else {
            Some(
                error::BootErrorModel {
                    message: key + ": expected a boolean, got '"@ + plainly(raw) + "'"@,
                    cause: None,
                },
            )
        },
        None => None,
    }
}

/// What is wrong with the port, if anything is.
pub open spec fn bad_port(vars: Vars) -> Option<error::BootErrorModel> {
    match given(vars, "REPUBLISHER_MQTT_PORT"@) {
        Some(raw) => if text::number(text::trimmed(raw), 65535) is Some {
            None
        } else {
            Some(
                error::BootErrorModel {
                    message: "REPUBLISHER_MQTT_PORT"@ + ": "@ + text::u16_parse_error(
                        text::trimmed(raw),
                    ),
                    cause: None,
                },
            )
        },
        None => None,
    }
}

/// What is wrong with the keep-alive, if anything is.
pub open spec fn bad_keep_alive(vars: Vars) -> Option<error::BootErrorModel> {
    match given(vars, "REPUBLISHER_MQTT_KEEP_ALIVE_SECS"@) {
        Some(raw) => if text::number(text::trimmed(raw), 0xffff_ffff_ffff_ffff) is Some {
            None
        } else {
            Some(
                error::BootErrorModel {
                    message: "REPUBLISHER_MQTT_KEEP_ALIVE_SECS"@ + ": "@ + text::u64_parse_error(
                        text::trimmed(raw),
                    ),
                    cause: None,
                },
            )
        },
        None => None,
    }
}

/// What is wrong with the payload format, if anything is.
pub open spec fn bad_format(vars: Vars) -> Option<error::BootErrorModel> {
    match given(vars, "REPUBLISHER_MQTT_PAYLOAD_FORMAT"@) {
        Some(raw) => {
            let w = plainly(raw);
            if w == "scalar"@ || w == "netix_envelope"@ || w == "envelope"@ {
                None
            } else {
                Some(
                    error::BootErrorModel {
                        message:
                            "REPUBLISHER_MQTT_PAYLOAD_FORMAT: expected 'scalar' or 'netix_envelope', got '"@
                            + w + "'"@,
                        cause: None,
                    },
                )
            }
        },
        None => None,
    }
}

/// What is wrong with the connection, if anything is: it is no object, or there is no protocol that
/// it could be of.
pub open spec fn bad_connection(
    vars: Vars,
    stored_protocol: Seq<char>,
) -> Option<error::BootErrorModel> {
    match given(vars, "REPUBLISHER_CONNECTION_JSON"@) {
        Some(raw) => match envcfg::parsed_object(raw) {
            Err(e) => Some(
                error::BootErrorModel {
                    message: "REPUBLISHER_CONNECTION_JSON is not a JSON object"@,
                    cause: Some(e),
                },
            ),
            Ok(_) => if given(vars, "REPUBLISHER_PROTOCOL"@) is None && stored_protocol.len() == 0 {
                Some(
                    error::BootErrorModel {
                        message:
                            "REPUBLISHER_CONNECTION_JSON requires REPUBLISHER_PROTOCOL (or a configured protocol)"@,
                        cause: None,
                    },
                )
            } else {
                None
            },
        },
        None => None,
    }
}

/// What is wrong with the points, if anything is.
pub open spec fn bad_points(
    vars: Vars,
    import: Result<MergedPoints, String>,
) -> Option<error::BootErrorModel> {
    match (given(vars, "REPUBLISHER_POINTS_JSON"@), import) {
        (Some(_), Err(e)) => Some(
            error::BootErrorModel {
                message: "REPUBLISHER_POINTS_JSON is not a PointConfig array"@,
                cause: Some(e@),
            },
        ),
        _ => None,
    }
}

/// A bad value is never passed over: the environment applies exactly when nothing in it is bad, and
/// else the first bad variable is the reason, with what is wrong with it.
#[verifier::spinoff_prover]
#[verifier::rlimit(40)]
pub proof fn law_first_bad_value(
    c: &mut AppConfig,
    vars: &EnvVars,
    secret: Option<String>,
    import: Result<MergedPoints, String>,
    r: Result<Vec<String>, BootError>,
)
    requires
        call_ensures(apply_env_overrides, (c, vars, secret, import), r),
    ensures
        ({
            let v = vars@;
            let reason = first_of(
                bad_port(v),
                first_of(
                    bad_flag(v, "REPUBLISHER_MQTT_TLS"@),
                    first_of(
                        bad_flag(v, "REPUBLISHER_MQTT_RETAIN"@),
                        first_of(
                            bad_keep_alive(v),
                            first_of(
                                bad_format(v),
                                first_of(
                                    bad_flag(v, "REPUBLISHER_AUTOSTART"@),
                                    first_of(
                                        bad_flag(v, "REPUBLISHER_DISCOVER_ON_START"@),
                                        first_of(
                                            bad_connection(v, old(c)@.protocol),
                                            bad_points(v, import),
                                        ),
                                    ),
                                ),
                            ),
                        ),
                    ),
                ),
            );
            match r {
                Ok(_) => reason is None,
                Err(e) => reason == Some(e@),
            }
        }),
{
    let v = vars@;
    let s = text::opt(secret);
    let start = envcfg::going(old(c)@, Seq::empty());
    let r1 = envcfg::broker_steps(start, v);
    let r2 = envcfg::password_env_step(r1, v, s);
    let r3 = envcfg::remaining_steps(r2, v);
    lemma_broker_failure(start, v);
    lemma_remaining_failure(r2, v);
    if r3.failed is None {
        envcfg::lemma_broker(start, v);
        envcfg::lemma_remaining(r2, v);
    }
}

/// Whether a truth value stops a run.
proof fn lemma_flag_failure(r: Run, v: Vars, s: FlagSetting)
    ensures
        envcfg::flag_step(r, v, s).failed == first_of(
            r.failed,
            bad_flag(
                v,
                match s {
                    FlagSetting::Tls => "REPUBLISHER_MQTT_TLS"@,
                    FlagSetting::Retain => "REPUBLISHER_MQTT_RETAIN"@,
                    FlagSetting::Autostart => "REPUBLISHER_AUTOSTART"@,
                    FlagSetting::DiscoverOnStart => "REPUBLISHER_DISCOVER_ON_START"@,
                },
            ),
        ),
{
    reveal(envcfg::flag_step);
}

/// What stops a run at the broker settings.
proof fn lemma_broker_failure(r: Run, v: Vars)
    ensures
        envcfg::broker_steps(r, v).failed == first_of(
            r.failed,
            first_of(bad_port(v), bad_flag(v, "REPUBLISHER_MQTT_TLS"@)),
        ),
{
    reveal(envcfg::broker_steps);
    let r1 = envcfg::protocol_step(r, v);
    let r2 = envcfg::text_step(r1, v, TextSetting::Host);
    let r3 = envcfg::port_step(r2, v);
    let r4 = envcfg::flag_step(r3, v, FlagSetting::Tls);
    assert(r1.failed == r.failed) by {
        reveal(envcfg::protocol_step);
    }
    lemma_text_failure(r1, v, TextSetting::Host);
    assert(r3.failed == first_of(r2.failed, bad_port(v))) by {
        reveal(envcfg::port_step);
    }
    lemma_flag_failure(r3, v, FlagSetting::Tls);
    lemma_text_failure(r4, v, TextSetting::ClientId);
    let r5 = envcfg::text_step(r4, v, TextSetting::ClientId);
    lemma_text_failure(r5, v, TextSetting::TopicPrefix);
    let r6 = envcfg::text_step(r5, v, TextSetting::TopicPrefix);
    lemma_text_failure(r6, v, TextSetting::HealthTopic);
    let r7 = envcfg::text_step(r6, v, TextSetting::HealthTopic);
    lemma_text_failure(r7, v, TextSetting::Username);
    let r8 = envcfg::text_step(r7, v, TextSetting::Username);
    lemma_text_failure(r8, v, TextSetting::Password);
}

/// A text never stops a run.
proof fn lemma_text_failure(r: Run, v: Vars, s: TextSetting)
    ensures
        envcfg::text_step(r, v, s).failed == r.failed,
{
    reveal(envcfg::text_step);
}

/// What stops a run at the further settings.
proof fn lemma_remaining_failure(r: Run, v: Vars)
    ensures
        envcfg::remaining_steps(r, v).failed == first_of(
            r.failed,
            first_of(
                bad_flag(v, "REPUBLISHER_MQTT_RETAIN"@),
                first_of(
                    bad_keep_alive(v),
                    first_of(
                        bad_format(v),
                        first_of(
                            bad_flag(v, "REPUBLISHER_AUTOSTART"@),
                            bad_flag(v, "REPUBLISHER_DISCOVER_ON_START"@),
                        ),
                    ),
                ),
            ),
        ),
{
    reveal(envcfg::remaining_steps);
    let r1 = envcfg::text_step(r, v, TextSetting::CaCert);
    let r2 = envcfg::text_step(r1, v, TextSetting::ClientCert);
    let r3 = envcfg::text_step(r2, v, TextSetting::ClientKey);
    let r4 = envcfg::text_step(r3, v, TextSetting::ClientKeyPassphrase);
    let r5 = envcfg::flag_step(r4, v, FlagSetting::Retain);
    let r6 = envcfg::keep_alive_step(r5, v);
    let r7 = envcfg::format_step(r6, v);
    let r8 = envcfg::text_step(r7, v, TextSetting::DeviceTopicPrefix);
    let r9 = envcfg::flag_step(r8, v, FlagSetting::Autostart);
    lemma_text_failure(r, v, TextSetting::CaCert);
    lemma_text_failure(r1, v, TextSetting::ClientCert);
    lemma_text_failure(r2, v, TextSetting::ClientKey);
    lemma_text_failure(r3, v, TextSetting::ClientKeyPassphrase);
    lemma_flag_failure(r4, v, FlagSetting::Retain);
    assert(r6.failed == first_of(r5.failed, bad_keep_alive(v))) by {
        reveal(envcfg::keep_alive_step);
    }
    assert(r7.failed == first_of(r6.failed, bad_format(v))) by {
        reveal(envcfg::format_step);
    }
    lemma_text_failure(r7, v, TextSetting::DeviceTopicPrefix);
    lemma_flag_failure(r8, v, FlagSetting::Autostart);
    lemma_flag_failure(r9, v, FlagSetting::DiscoverOnStart);
}

/// The notes with one more, where there is something to note.
pub open spec fn and_note(notes: Seq<Seq<char>>, there: bool, note: Seq<char>) -> Seq<Seq<char>> {
    if there {
        notes.push(note)
    } else {
        notes
    }
}

/// `true` or `false`.
pub open spec fn word(b: bool) -> Seq<char> {
    if b {
        "true"@
    } else {
        "false"@
    }
}

/// Whether a variable is given.
pub open spec fn has(vars: Vars, key: Seq<char>) -> bool {
    given(vars, key) is Some
}

/// Each variable that is given is noted once, in a fixed order, and no other is.
#[verifier::spinoff_prover]
#[verifier::rlimit(60)]
pub proof fn law_notes(
    c: &mut AppConfig,
    vars: &EnvVars,
    secret: Option<String>,
    import: Result<MergedPoints, String>,
    r: Result<Vec<String>, BootError>,
)
    requires
        call_ensures(apply_env_overrides, (c, vars, secret, import), r),
        r is Ok,
    ensures
        ({
            let v = vars@;
            let n0 = broker_notes(v);
            let name = over(given(v, "REPUBLISHER_MQTT_PASSWORD_ENV"@), ""@);
            let n1 = and_note(
                n0,
                has(v, "REPUBLISHER_MQTT_PASSWORD_ENV"@),
                if secret is Some {
                    "mqtt.password (via $"@ + name + ")"@
                } else {
                    "mqtt.password_env = "@ + name + " (env, unresolved)"@
                },
            );
            let n2 = remaining_notes(n1, v);
            let n3 = and_note(
                n2,
                has(v, "REPUBLISHER_CONNECTION_JSON"@),
                "connection (env JSON merge)"@,
            );
            text::views(r->Ok_0@) == if has(v, "REPUBLISHER_POINTS_JSON"@) {
                n3.push(
                    "points (env JSON merge: "@ + text::decimal(import->Ok_0.added as nat)
                        + " added, "@ + text::decimal(import->Ok_0.updated as nat) + " updated)"@,
                )
            } else {
                n3
            }
        }),
{
    let v = vars@;
    let s = text::opt(secret);
    let i = envcfg::import_view(import);
    let (r1, r3) = envcfg::lemma_parts(old(c)@, v, s, i);
    lemma_broker_notes(envcfg::going(old(c)@, Seq::empty()), v);
    lemma_remaining_notes(envcfg::password_env_step(r1, v, s), v);
}

/// What is noted of the broker settings.
pub open spec fn broker_notes(v: Vars) -> Seq<Seq<char>> {
    let protocol = text::trimmed(over(given(v, "REPUBLISHER_PROTOCOL"@), ""@));
    let n1 = and_note(
        Seq::empty(),
        has(v, "REPUBLISHER_PROTOCOL"@),
        "protocol = "@ + protocol + " (env)"@,
    );
    let n2 = and_note(n1, has(v, "REPUBLISHER_MQTT_HOST"@), "mqtt.host (env)"@);
    let n3 = and_note(n2, has(v, "REPUBLISHER_MQTT_PORT"@), "mqtt.port (env)"@);
    let n4 = and_note(n3, has(v, "REPUBLISHER_MQTT_TLS"@), "mqtt.use_tls (env)"@);
    let n5 = and_note(n4, has(v, "REPUBLISHER_MQTT_CLIENT_ID"@), "mqtt.client_id (env)"@);
    let n6 = and_note(n5, has(v, "REPUBLISHER_MQTT_TOPIC_PREFIX"@), "mqtt.topic_prefix (env)"@);
    let n7 = and_note(n6, has(v, "REPUBLISHER_MQTT_HEALTH_TOPIC"@), "mqtt.health_topic (env)"@);
    let n8 = and_note(n7, has(v, "REPUBLISHER_MQTT_USERNAME"@), "mqtt.username (env)"@);
    and_note(n8, has(v, "REPUBLISHER_MQTT_PASSWORD"@), "mqtt.password (env)"@)
}

/// What is noted of the further settings.
pub open spec fn remaining_notes(n0: Seq<Seq<char>>, v: Vars) -> Seq<Seq<char>> {
    let n1 = and_note(n0, has(v, "REPUBLISHER_MQTT_CA_CERT"@), "mqtt.ca_cert_path (env)"@);
    let n2 = and_note(n1, has(v, "REPUBLISHER_MQTT_CLIENT_CERT"@), "mqtt.client_cert_path (env)"@);
    let n3 = and_note(n2, has(v, "REPUBLISHER_MQTT_CLIENT_KEY"@), "mqtt.client_key_path (env)"@);
    let n4 = and_note(
        n3,
        has(v, "REPUBLISHER_MQTT_CLIENT_KEY_PASSPHRASE"@),
        "mqtt.client_key_passphrase (env)"@,
    );
    let n5 = and_note(n4, has(v, "REPUBLISHER_MQTT_RETAIN"@), "mqtt.retain (env)"@);
    let n6 = and_note(
        n5,
        has(v, "REPUBLISHER_MQTT_KEEP_ALIVE_SECS"@),
        "mqtt.keep_alive_secs (env)"@,
    );
    let n7 = and_note(
        n6,
        has(v, "REPUBLISHER_MQTT_PAYLOAD_FORMAT"@),
        "mqtt.payload_format (env)"@,
    );
    let n8 = and_note(
        n7,
        has(v, "REPUBLISHER_MQTT_DEVICE_TOPIC_PREFIX"@),
        "mqtt.device_topic_prefix (env)"@,
    );
    let n9 = and_note(
        n8,
        has(v, "REPUBLISHER_AUTOSTART"@),
        "mqtt.autostart = "@ + word(yes(over(given(v, "REPUBLISHER_AUTOSTART"@), ""@)))
            + " (env)"@,
    );
    and_note(
        n9,
        has(v, "REPUBLISHER_DISCOVER_ON_START"@),
        "discover_on_start = "@ + word(yes(over(given(v, "REPUBLISHER_DISCOVER_ON_START"@), ""@)))
            + " (env)"@,
    )
}

/// What is noted of a text.
proof fn lemma_text_note(r: Run, v: Vars, s: TextSetting)
    ensures
        envcfg::text_step(r, v, s).failed == r.failed,
        r.failed is None ==> envcfg::text_step(r, v, s).notes == and_note(
            r.notes,
            has(v, envcfg::text_var(s)),
            envcfg::text_note(s),
        ),
{
    reveal(envcfg::text_step);
}

/// What is noted of a truth value.
proof fn lemma_flag_note(r: Run, v: Vars, s: FlagSetting)
    requires
        envcfg::flag_step(r, v, s).failed is None,
    ensures
        r.failed is None,
        envcfg::flag_step(r, v, s).notes == and_note(
            r.notes,
            has(v, envcfg::flag_var(s)),
            envcfg::flag_note(s, yes(over(given(v, envcfg::flag_var(s)), ""@))),
        ),
{
    reveal(envcfg::flag_step);
    lemma_words(v, envcfg::flag_var(s));
}

/// What is noted of the broker settings.
proof fn lemma_broker_notes(r: Run, v: Vars)
    requires
        r.failed is None,
        r.notes == Seq::<Seq<char>>::empty(),
        envcfg::broker_steps(r, v).failed is None,
    ensures
        envcfg::broker_steps(r, v).notes == broker_notes(v),
{
    reveal(envcfg::broker_steps);
    let r1 = envcfg::protocol_step(r, v);
    let r2 = envcfg::text_step(r1, v, TextSetting::Host);
    let r3 = envcfg::port_step(r2, v);
    let r4 = envcfg::flag_step(r3, v, FlagSetting::Tls);
    let r5 = envcfg::text_step(r4, v, TextSetting::ClientId);
    let r6 = envcfg::text_step(r5, v, TextSetting::TopicPrefix);
    let r7 = envcfg::text_step(r6, v, TextSetting::HealthTopic);
    let r8 = envcfg::text_step(r7, v, TextSetting::Username);
    lemma_text_note(r8, v, TextSetting::Password);
    lemma_text_note(r7, v, TextSetting::Username);
    lemma_text_note(r6, v, TextSetting::HealthTopic);
    lemma_text_note(r5, v, TextSetting::TopicPrefix);
    lemma_text_note(r4, v, TextSetting::ClientId);
    lemma_flag_note(r3, v, FlagSetting::Tls);
    assert(r2.failed is None && r3.notes == and_note(
        r2.notes,
        has(v, "REPUBLISHER_MQTT_PORT"@),
        "mqtt.port (env)"@,
    )) by {
        reveal(envcfg::port_step);
    }
    lemma_text_note(r1, v, TextSetting::Host);
    assert(r1.notes == and_note(
        r.notes,
        has(v, "REPUBLISHER_PROTOCOL"@),
        "protocol = "@ + text::trimmed(over(given(v, "REPUBLISHER_PROTOCOL"@), ""@)) + " (env)"@,
    )) by {
        reveal(envcfg::protocol_step);
    }
}

/// What is noted of the further settings.
proof fn lemma_remaining_notes(r: Run, v: Vars)
    requires
        envcfg::remaining_steps(r, v).failed is None,
    ensures
        envcfg::remaining_steps(r, v).notes == remaining_notes(r.notes, v),
{
    reveal(envcfg::remaining_steps);
    let r1 = envcfg::text_step(r, v, TextSetting::CaCert);
    let r2 = envcfg::text_step(r1, v, TextSetting::ClientCert);
    let r3 = envcfg::text_step(r2, v, TextSetting::ClientKey);
    let r4 = envcfg::text_step(r3, v, TextSetting::ClientKeyPassphrase);
    let r5 = envcfg::flag_step(r4, v, FlagSetting::Retain);
    let r6 = envcfg::keep_alive_step(r5, v);
    let r7 = envcfg::format_step(r6, v);
    let r8 = envcfg::text_step(r7, v, TextSetting::DeviceTopicPrefix);
    let r9 = envcfg::flag_step(r8, v, FlagSetting::Autostart);
    lemma_flag_note(r9, v, FlagSetting::DiscoverOnStart);
    lemma_flag_note(r8, v, FlagSetting::Autostart);
    lemma_text_note(r7, v, TextSetting::DeviceTopicPrefix);
    assert(r6.failed is None && r7.notes == and_note(
        r6.notes,
        has(v, "REPUBLISHER_MQTT_PAYLOAD_FORMAT"@),
        "mqtt.payload_format (env)"@,
    )) by {
        reveal(envcfg::format_step);
    }
    assert(r5.failed is None && r6.notes == and_note(
        r5.notes,
        has(v, "REPUBLISHER_MQTT_KEEP_ALIVE_SECS"@),
        "mqtt.keep_alive_secs (env)"@,
    )) by {
        reveal(envcfg::keep_alive_step);
    }
    lemma_flag_note(r4, v, FlagSetting::Retain);
    lemma_text_note(r3, v, TextSetting::ClientKeyPassphrase);
    lemma_text_note(r2, v, TextSetting::ClientKey);
    lemma_text_note(r1, v, TextSetting::ClientCert);
    lemma_text_note(r, v, TextSetting::CaCert);
}

} // verus!
