//! Laws of the documents that the browser gets: which member says what.

use vstd::prelude::*;

use crate::config::AppConfig;
use crate::json;
use crate::json::{addressing, texts, Json, JsonModel};
use crate::laws::{counts, known, member, one_more_line, says, tells_line};
use crate::model;
use crate::model::{
    Addressing, BrowseKind, Capabilities, DiscoveredDevice, DiscoveredPoint, DiscoveryKind,
    FieldSpec, PointConfig, PointFacts, PointIdentity, PointSample, PointStatus,
    RepublisherLifecycle,
};
use crate::text;
use crate::web::api;
use crate::web::api::{ApiError, Interface};
use crate::web::dto;
use crate::web::dto::{
    addressing_display, browsed_dto, device_dto, identity_key, lifecycle_dto, point_dto,
    redacted_config, sample_dto, status_dto, BrowsedPointDto, CapabilitiesDto, DeviceDto,
    FieldSpecDto, PointDto, PointStatusDto, SampleDto,
};
use crate::web::state;
use crate::web::state::{LogRecord, WebState};

verus! {

/// Named values become members of the same names with the same values.
pub proof fn law_addressing_document(a: &Addressing, r: Json, key: Seq<char>)
    requires
        call_ensures(addressing, (a,), r),
    ensures
        r@ is Object,
        a@.dom().contains(key) ==> member(r@, key) == Some(JsonModel::Value(a@[key])),
        !a@.dom().contains(key) ==> member(r@, key) is None,
{
}

/// Texts become an array of the same texts in the same order.
pub proof fn law_texts_document(items: &Vec<String>, r: Json, i: int)
    requires
        call_ensures(texts, (items,), r),
    ensures
        r@ matches JsonModel::List(list) && list.len() == items@.len() && (0 <= i < items@.len()
            ==> list[i] == JsonModel::Text(items@[i]@)),
{
}

/// A field is shown with its key, its label and its kind; only a choice has choices, and those are
/// its own; a default and a help are there where the field has them.
pub proof fn law_field_document(spec: &FieldSpec, r: FieldSpecDto)
    requires
        call_ensures(FieldSpecDto::of, (spec,), r),
    ensures
        says(r@, "key"@, spec@.key),
        says(r@, "label"@, spec@.label),
        says(
            r@,
            "kind"@,
            match spec@.kind {
                model::FieldKindModel::Text => "text"@,
                model::FieldKindModel::U32 => "u32"@,
                model::FieldKindModel::Bool => "bool"@,
                model::FieldKindModel::Enum(_) => "enum"@,
                model::FieldKindModel::Secret => "secret"@,
            },
        ),
        match spec@.kind {
            model::FieldKindModel::Enum(options) => member(r@, "options"@) matches Some(
                JsonModel::List(list),
            ) && list.len() == options.len() && forall|i: int|
                0 <= i < options.len() ==> #[trigger] list[i] == JsonModel::Text(options[i]),
            _ => member(r@, "options"@) is None,
        },
        match spec@.default {
            Some(v) => member(r@, "default"@) == Some(JsonModel::Value(v)),
            None => member(r@, "default"@) is None,
        },
        match spec@.help {
            Some(h) => says(r@, "help"@, h),
            None => member(r@, "help"@) is None,
        },
{
    reveal_strlit("key");
    reveal_strlit("label");
    reveal_strlit("kind");
    reveal_strlit("options");
    reveal_strlit("default");
    reveal_strlit("help");
    assert("key"@.len() == 3);
    assert("label"@.len() == 5);
    assert("kind"@.len() == 4);
    assert("options"@.len() == 7);
    assert("default"@.len() == 7);
    assert("help"@.len() == 4);
    assert("kind"@[0] == 'k');
    assert("help"@[0] == 'h');
    assert("options"@[0] == 'o');
    assert("default"@[0] == 'd');
}

/// An adapter is shown with its name, its ways to find devices and to list points, all its fields
/// in their order, and its port.
pub proof fn law_capabilities_document(caps: &Capabilities, r: CapabilitiesDto, i: int)
    requires
        call_ensures(CapabilitiesDto::of, (caps,), r),
    ensures
        says(r@, "id"@, caps@.id),
        says(r@, "display_name"@, caps@.display_name),
        says(
            r@,
            "discovery"@,
            match caps@.discovery {
                DiscoveryKind::Broadcast => "broadcast"@,
                DiscoveryKind::EndpointQuery => "endpoint_query"@,
                DiscoveryKind::SubnetScan => "subnet_scan"@,
                DiscoveryKind::ManualOnly => "manual"@,
            },
        ),
        says(
            r@,
            "discovery_label"@,
            match caps@.discovery {
                DiscoveryKind::Broadcast => "Discover (broadcast)"@,
                DiscoveryKind::EndpointQuery => "Query endpoints"@,
                DiscoveryKind::SubnetScan => "Scan subnet"@,
                DiscoveryKind::ManualOnly => "Discover"@,
            },
        ),
        says(
            r@,
            "browse"@,
            match caps@.browse {
                BrowseKind::ObjectList => "object_list"@,
                BrowseKind::AddressSpace => "address_space"@,
                BrowseKind::RegisterScan => "register_scan"@,
                BrowseKind::NotOffered => "none"@,
            },
        ),
        counts(r@, "default_port"@, caps@.default_port as int),
        member(r@, "connection_fields"@) matches Some(JsonModel::List(list)) && {
            let fields = caps@.connection_fields;
            list.len() == fields.len() && (0 <= i < fields.len() ==> list[i] == dto::field_json(
                fields[i],
            ))
        },
        member(r@, "addressing_fields"@) matches Some(JsonModel::List(list)) && {
            let fields = caps@.addressing_fields;
            list.len() == fields.len() && (0 <= i < fields.len() ==> list[i] == dto::field_json(
                fields[i],
            ))
        },
{
    reveal_strlit("id");
    reveal_strlit("display_name");
    reveal_strlit("discovery");
    reveal_strlit("discovery_label");
    reveal_strlit("browse");
    reveal_strlit("connection_fields");
    reveal_strlit("addressing_fields");
    reveal_strlit("default_port");
    assert("id"@.len() == 2);
    assert("display_name"@.len() == 12);
    assert("discovery"@.len() == 9);
    assert("discovery_label"@.len() == 15);
    assert("browse"@.len() == 6);
    assert("connection_fields"@.len() == 17);
    assert("addressing_fields"@.len() == 17);
    assert("default_port"@.len() == 12);
    assert("display_name"@[1] == 'i');
    assert("default_port"@[1] == 'e');
    assert("connection_fields"@[0] == 'c');
    assert("addressing_fields"@[0] == 'a');
}

/// A device is shown with its place in the list and all that is known of it.
pub proof fn law_device_document(index: usize, device: &DiscoveredDevice, r: DeviceDto)
    requires
        call_ensures(device_dto, (index, device), r),
    ensures
        counts(r@, "index"@, index as int),
        says(r@, "key"@, device@.key),
        match device@.instance {
            Some(n) => counts(r@, "instance"@, n as int),
            None => member(r@, "instance"@) is None,
        },
        says(r@, "address"@, device@.address),
        says(r@, "detail"@, device@.detail),
{
    reveal_strlit("index");
    reveal_strlit("key");
    reveal_strlit("instance");
    reveal_strlit("address");
    reveal_strlit("detail");
    assert("index"@.len() == 5);
    assert("key"@.len() == 3);
    assert("instance"@.len() == 8);
    assert("address"@.len() == 7);
    assert("detail"@.len() == 6);
}

/// An addressing is shown pair after pair: none shows nothing, and one more pair comes behind a
/// space.
pub proof fn law_addressing_shown(
    pairs: &Vec<(String, String)>,
    more: &Vec<(String, String)>,
    r: String,
    s: String,
)
    requires
        call_ensures(addressing_display, (pairs,), r),
        call_ensures(addressing_display, (more,), s),
        more@.len() == pairs@.len() + 1,
        more@.drop_last() == pairs@,
    ensures
        ({
            let last = more@.last().0@ + "="@ + more@.last().1@;
            &&& pairs@.len() == 0 ==> r@.len() == 0 && s@ == last
            &&& pairs@.len() > 0 ==> s@ == r@ + " "@ + last
        }),
{
    let p = dto::shown_pairs(model::pair_views(pairs@));
    let m = dto::shown_pairs(model::pair_views(more@));
    assert(m.drop_last() =~= p);
}

/// A point's key for the browser is made of its addressing alone, pair after pair with a comma
/// between: one more pair comes behind a comma, and the device's name does not matter.
pub proof fn law_identity_key(a: &PointIdentity, b: &PointIdentity, r: String, s: String)
    requires
        call_ensures(identity_key, (a,), r),
        call_ensures(identity_key, (b,), s),
    ensures
        a@.addressing == b@.addressing ==> r@ == s@,
        b@.addressing.len() == 0 ==> s@.len() == 0,
        b@.addressing.len() > 0 && b@.addressing.drop_last() == a@.addressing ==> {
            let last = b@.addressing.last().0 + "="@ + b@.addressing.last().1;
            s@ == if a@.addressing.len() == 0 {
                last
            } else {
                r@ + ","@ + last
            }
        },
{
    let p = dto::shown_pairs(a@.addressing);
    let m = dto::shown_pairs(b@.addressing);
    if b@.addressing.len() > 0 && b@.addressing.drop_last() == a@.addressing {
        assert(m.drop_last() =~= p);
    }
}

/// A browsed point is shown with its place in the list and all that was found of it; what was not
/// found is left out.
pub proof fn law_browsed_document(index: usize, point: &DiscoveredPoint, r: BrowsedPointDto)
    requires
        call_ensures(browsed_dto, (index, point), r),
    ensures
        counts(r@, "index"@, index as int),
        says(r@, "device_key"@, point@.device_key),
        member(r@, "name"@) == json::opt_text(point@.name),
        member(r@, "description"@) == json::opt_text(point@.description),
        member(r@, "units"@) == json::opt_text(point@.units),
        match point@.value {
            Some(v) => member(r@, "value"@) == Some(JsonModel::Value(v.json)) && says(
                r@,
                "value_display"@,
                v.display,
            ),
            None => member(r@, "value"@) is None && member(r@, "value_display"@) is None,
        },
        member(r@, "addressing"@) == Some(json::addressing_json(point@.addressing)),
        says(r@, "addressing_display"@, dto::addressing_shown(point@.rendered)),
        says(r@, "suggested_tag_path"@, point@.suggested_tag_path),
{
    reveal_strlit("index");
    reveal_strlit("device_key");
    reveal_strlit("name");
    reveal_strlit("description");
    reveal_strlit("units");
    reveal_strlit("value");
    reveal_strlit("value_display");
    reveal_strlit("addressing");
    reveal_strlit("addressing_display");
    reveal_strlit("suggested_tag_path");
    assert("index"@.len() == 5);
    assert("device_key"@.len() == 10);
    assert("name"@.len() == 4);
    assert("description"@.len() == 11);
    assert("units"@.len() == 5);
    assert("value"@.len() == 5);
    assert("value_display"@.len() == 13);
    assert("addressing"@.len() == 10);
    assert("addressing_display"@.len() == 18);
    assert("suggested_tag_path"@.len() == 18);
    assert("index"@[0] == 'i');
    assert("units"@[0] == 'u');
    assert("value"@[0] == 'v');
    assert("device_key"@[0] == 'd');
    assert("addressing"@[0] == 'a');
    assert("addressing_display"@[0] == 'a');
    assert("suggested_tag_path"@[0] == 's');
}

/// An optional text is a text where there is one.
pub proof fn law_optional_text(o: Option<Seq<char>>, v: Option<model::ValueModel>)
    ensures
        json::opt_text(o) == match o {
            Some(s) => Some(JsonModel::Text(s)),
            None => None,
        },
        json::opt_value(v) == match v {
            Some(x) => Some(JsonModel::Value(x)),
            None => None,
        },
{
}

/// The state that a status shows: nothing known is `unknown`; a failed publication comes before a
/// failed read, that before a stale value, and without any of these all is `ok`. The rest of the
/// status is shown as it is, and a point of which nothing is known counts as stale.
pub proof fn law_status_document(status: Option<&PointStatus>, r: PointStatusDto)
    requires
        call_ensures(status_dto, (status,), r),
    ensures
        status is None ==> {
            &&& says(r@, "state"@, "unknown"@)
            &&& member(r@, "stale"@) == Some(JsonModel::Bool(true))
            &&& counts(r@, "consecutive_failures"@, 0)
            &&& member(r@, "last_value"@) is None
            &&& member(r@, "last_value_display"@) is None
            &&& member(r@, "last_sample_ms"@) is None
            &&& member(r@, "last_error"@) is None
            &&& member(r@, "last_publish_error"@) is None
        },
        status matches Some(s) ==> {
            &&& s@.last_publish_error is Some ==> says(r@, "state"@, "publish_error"@)
            &&& s@.last_publish_error is None && s@.last_error is Some ==> says(
                r@,
                "state"@,
                "read_error"@,
            )
            &&& s@.last_publish_error is None && s@.last_error is None && s@.stale ==> says(
                r@,
                "state"@,
                "stale"@,
            )
            &&& s@.last_publish_error is None && s@.last_error is None && !s@.stale ==> says(
                r@,
                "state"@,
                "ok"@,
            )
            &&& member(r@, "stale"@) == Some(JsonModel::Bool(s@.stale))
            &&& counts(r@, "consecutive_failures"@, s@.consecutive_failures as int)
            &&& match s@.last_value {
                Some(v) => member(r@, "last_value"@) == Some(JsonModel::Value(v.json)) && says(
                    r@,
                    "last_value_display"@,
                    v.display,
                ),
                None => member(r@, "last_value"@) is None && member(r@, "last_value_display"@) is None,
            }
            &&& match s@.last_sample_ms {
                Some(t) => counts(r@, "last_sample_ms"@, t as int),
                None => member(r@, "last_sample_ms"@) is None,
            }
            &&& match s@.last_error {
                Some(e) => says(r@, "last_error"@, e),
                None => member(r@, "last_error"@) is None,
            }
            &&& match s@.last_publish_error {
                Some(e) => says(r@, "last_publish_error"@, e),
                None => member(r@, "last_publish_error"@) is None,
            }
        },
{
    reveal_strlit("state");
    reveal_strlit("last_value");
    reveal_strlit("last_value_display");
    reveal_strlit("last_sample_ms");
    reveal_strlit("stale");
    reveal_strlit("consecutive_failures");
    reveal_strlit("last_error");
    reveal_strlit("last_publish_error");
    assert("state"@.len() == 5);
    assert("last_value"@.len() == 10);
    assert("last_value_display"@.len() == 18);
    assert("last_sample_ms"@.len() == 14);
    assert("stale"@.len() == 5);
    assert("consecutive_failures"@.len() == 20);
    assert("last_error"@.len() == 10);
    assert("last_publish_error"@.len() == 18);
    assert("state"@[3] == 't');
    assert("stale"@[3] == 'l');
    assert("last_value"@[5] == 'v');
    assert("last_error"@[5] == 'e');
    assert("last_value_display"@[5] == 'v');
    assert("last_publish_error"@[5] == 'p');
}

/// A configured point is shown with its place in the list, what is configured of it, what the core
/// derives from it, and its status.
pub proof fn law_point_document(
    index: usize,
    point: &PointConfig,
    facts: &PointFacts,
    status: Option<&PointStatus>,
    r: PointDto,
    key: String,
    shown: PointStatusDto,
)
    requires
        call_ensures(point_dto, (index, point, facts, status), r),
        call_ensures(identity_key, (&facts.identity,), key),
        call_ensures(status_dto, (status,), shown),
    ensures
        counts(r@, "index"@, index as int),
        says(r@, "identity"@, key@),
        member(r@, "enabled"@) == Some(JsonModel::Bool(point@.enabled)),
        says(r@, "device_key"@, point@.device_key),
        says(r@, "tag_path"@, point@.tag_path),
        counts(r@, "poll_interval_secs"@, point@.poll_interval_secs as int),
        member(r@, "addressing"@) == Some(json::addressing_json(point@.addressing)),
        says(r@, "addressing_display"@, dto::addressing_shown(facts@.rendered)),
        says(r@, "display_name"@, facts@.display_name),
        says(r@, "topic"@, facts@.topic),
        member(r@, "status"@) == Some(shown@),
{
    reveal_strlit("index");
    reveal_strlit("identity");
    reveal_strlit("enabled");
    reveal_strlit("device_key");
    reveal_strlit("tag_path");
    reveal_strlit("poll_interval_secs");
    reveal_strlit("addressing");
    reveal_strlit("addressing_display");
    reveal_strlit("display_name");
    reveal_strlit("topic");
    reveal_strlit("status");
    assert("index"@.len() == 5);
    assert("identity"@.len() == 8);
    assert("enabled"@.len() == 7);
    assert("device_key"@.len() == 10);
    assert("tag_path"@.len() == 8);
    assert("poll_interval_secs"@.len() == 18);
    assert("addressing"@.len() == 10);
    assert("addressing_display"@.len() == 18);
    assert("display_name"@.len() == 12);
    assert("topic"@.len() == 5);
    assert("status"@.len() == 6);
    assert("index"@[0] == 'i');
    assert("topic"@[0] == 't');
    assert("identity"@[0] == 'i');
    assert("tag_path"@[0] == 't');
    assert("device_key"@[0] == 'd');
    assert("addressing"@[0] == 'a');
    assert("poll_interval_secs"@[0] == 'p');
    assert("addressing_display"@[0] == 'a');
}

/// A sample is shown with its point's key, name and topic, its value and its moment.
pub proof fn law_sample_document(sample: &PointSample, r: SampleDto, key: String)
    requires
        call_ensures(sample_dto, (sample,), r),
        call_ensures(identity_key, (&sample.identity,), key),
    ensures
        says(r@, "identity"@, key@),
        says(r@, "device_key"@, sample@.device_key),
        says(r@, "tag_path"@, sample@.tag_path),
        says(r@, "display_name"@, sample@.display_name),
        says(r@, "topic"@, sample@.topic),
        member(r@, "value"@) == Some(JsonModel::Value(sample@.value.json)),
        says(r@, "value_display"@, sample@.value.display),
        counts(r@, "timestamp_ms"@, sample@.timestamp_ms as int),
{
    reveal_strlit("identity");
    reveal_strlit("device_key");
    reveal_strlit("tag_path");
    reveal_strlit("display_name");
    reveal_strlit("topic");
    reveal_strlit("value");
    reveal_strlit("value_display");
    reveal_strlit("timestamp_ms");
    assert("identity"@.len() == 8);
    assert("device_key"@.len() == 10);
    assert("tag_path"@.len() == 8);
    assert("display_name"@.len() == 12);
    assert("topic"@.len() == 5);
    assert("value"@.len() == 5);
    assert("value_display"@.len() == 13);
    assert("timestamp_ms"@.len() == 12);
    assert("identity"@[0] == 'i');
    assert("tag_path"@[0] == 't');
    assert("display_name"@[0] == 'd');
    assert("timestamp_ms"@[0] == 't');
    assert("topic"@[0] == 't');
    assert("value"@[0] == 'v');
}

/// Each stage of the republisher has its own name, and only a failure has an error.
pub proof fn law_lifecycle_document(lifecycle: &RepublisherLifecycle, r: Json)
    requires
        call_ensures(lifecycle_dto, (lifecycle,), r),
    ensures
        match lifecycle@ {
            model::LifecycleModel::Starting => says(r@, "state"@, "starting"@),
            model::LifecycleModel::Running => says(r@, "state"@, "running"@),
            model::LifecycleModel::Stopping => says(r@, "state"@, "stopping"@),
            model::LifecycleModel::Stopped => says(r@, "state"@, "stopped"@),
            model::LifecycleModel::Failed(e) => says(r@, "state"@, "failed"@) && says(
                r@,
                "error"@,
                e,
            ),
        },
        lifecycle@ !is Failed ==> member(r@, "error"@) == Some(JsonModel::Null),
{
    reveal_strlit("state");
    reveal_strlit("error");
    assert("state"@.len() == 5);
    assert("error"@.len() == 5);
    assert("state"@[0] == 's');
    assert("error"@[0] == 'e');
}

/// The configuration is shown as it is but for the two secrets, of which it is only told whether
/// they are set.
pub proof fn law_config_document(c: &AppConfig, r: Json)
    requires
        call_ensures(redacted_config, (c,), r),
    ensures
        member(r@, "config"@) matches Some(JsonModel::Config(shown)) && {
            &&& shown.mqtt.password is None
            &&& shown.mqtt.client_key_passphrase is None
            &&& shown.protocol == c@.protocol
            &&& shown.connections == c@.connections
            &&& shown.points == c@.points
            &&& shown.discover_on_start == c@.discover_on_start
            &&& shown.theme == c@.theme
            &&& c@.mqtt.password is None && c@.mqtt.client_key_passphrase is None ==> shown.mqtt
                == c@.mqtt
            &&& shown.mqtt.host == c@.mqtt.host
            &&& shown.mqtt.port == c@.mqtt.port
            &&& shown.mqtt.use_tls == c@.mqtt.use_tls
            &&& shown.mqtt.client_id == c@.mqtt.client_id
            &&& shown.mqtt.topic_prefix == c@.mqtt.topic_prefix
            &&& shown.mqtt.health_topic == c@.mqtt.health_topic
            &&& shown.mqtt.username == c@.mqtt.username
            &&& shown.mqtt.password_env == c@.mqtt.password_env
            &&& shown.mqtt.ca_cert_path == c@.mqtt.ca_cert_path
            &&& shown.mqtt.client_cert_path == c@.mqtt.client_cert_path
            &&& shown.mqtt.client_key_path == c@.mqtt.client_key_path
            &&& shown.mqtt.remember_secrets == c@.mqtt.remember_secrets
            &&& shown.mqtt.retain == c@.mqtt.retain
            &&& shown.mqtt.keep_alive_secs == c@.mqtt.keep_alive_secs
            &&& shown.mqtt.payload_format == c@.mqtt.payload_format
            &&& shown.mqtt.device_topic_prefix == c@.mqtt.device_topic_prefix
            &&& shown.mqtt.autostart == c@.mqtt.autostart
        },
        member(r@, "secrets"@) matches Some(secrets) && {
            &&& member(secrets, "password_set"@) == Some(
                JsonModel::Bool(c@.mqtt.password is Some),
            )
            &&& member(secrets, "client_key_passphrase_set"@) == Some(
                JsonModel::Bool(c@.mqtt.client_key_passphrase is Some),
            )
            &&& forall|key: Seq<char>| #[trigger]
                member(secrets, key) is Some ==> member(secrets, key)->Some_0 is Bool
        },
        forall|key: Seq<char>| #[trigger]
            member(r@, key) is Some ==> key == "config"@ || key == "secrets"@,
{
    reveal_strlit("config");
    reveal_strlit("secrets");
    reveal_strlit("password_set");
    reveal_strlit("client_key_passphrase_set");
    assert("config"@.len() == 6);
    assert("secrets"@.len() == 7);
    assert("password_set"@.len() == 12);
    assert("client_key_passphrase_set"@.len() == 25);
}

/// A log line is shown with its number, its moment, its level and what it says.
pub proof fn law_log_document(line: &LogRecord, r: Json)
    requires
        call_ensures(LogRecord::json, (line,), r),
    ensures
        counts(r@, "seq"@, line@.seq as int),
        counts(r@, "ts_ms"@, line@.ts_ms as int),
        says(r@, "level"@, line@.level),
        says(r@, "message"@, line@.message),
{
    reveal_strlit("seq");
    reveal_strlit("ts_ms");
    reveal_strlit("level");
    reveal_strlit("message");
    assert("seq"@.len() == 3);
    assert("ts_ms"@.len() == 5);
    assert("level"@.len() == 5);
    assert("message"@.len() == 7);
    assert("ts_ms"@[0] == 't');
    assert("level"@[0] == 'l');
}

/// What is sent of a log line tells of it.
pub proof fn lemma_log_news(line: state::LogModel, status_line: Seq<char>)
    ensures
        tells_line(state::log_event(line), line),
        tells_line(state::status_event(line, status_line), line),
        says(state::status_event(line, status_line), "status_line"@, status_line),
{
    reveal_strlit("seq");
    reveal_strlit("ts_ms");
    reveal_strlit("level");
    reveal_strlit("message");
    reveal_strlit("type");
    reveal_strlit("record");
    reveal_strlit("status_line");
    assert("seq"@.len() == 3);
    assert("ts_ms"@.len() == 5);
    assert("level"@.len() == 5);
    assert("message"@.len() == 7);
    assert("type"@.len() == 4);
    assert("record"@.len() == 6);
    assert("status_line"@.len() == 11);
    assert("ts_ms"@[0] == 't');
    assert("level"@[0] == 'l');
}

/// What is sent under a type holds the type and its one other member.
pub proof fn lemma_news(kind: Seq<char>, key: Seq<char>, value: JsonModel)
    requires
        key != "type"@,
    ensures
        says(state::event_json(kind, key, value), "type"@, kind),
        member(state::event_json(kind, key, value), key) == Some(value),
{
}

/// The configured points are shown in their order, each with the status that is kept under its
/// identity.
pub proof fn law_points_document(
    w: &WebState,
    facts: &Vec<PointFacts>,
    r: Json,
    i: int,
    status: Option<&PointStatus>,
    index: usize,
    shown: PointDto,
)
    requires
        call_ensures(WebState::points_json, (w, facts), r),
        0 <= i < w.shared.config.points@.len(),
        facts@.len() == w.shared.config.points@.len(),
        index == i,
        dto::opt_status(status) == known(w@.shared.statuses, facts@[i]@.identity),
        call_ensures(
            point_dto,
            (index, &w.shared.config.points@[i], &facts@[i], status),
            shown,
        ),
    ensures
        r@ matches JsonModel::List(list) && list.len() == w@.shared.config.points.len() && list[i]
            == shown@,
{
}

/// The daemon's status says what the daemon holds: its status line, its protocol, how many points
/// and devices there are, how much was published, how far a scan is, and where the configuration is.
pub proof fn law_status_of_the_daemon(w: &WebState, r: Json, stage: Json)
    requires
        call_ensures(WebState::status_json, (w,), r),
        call_ensures(lifecycle_dto, (&w.shared.lifecycle,), stage),
    ensures
        says(r@, "status_line"@, w@.shared.status_line),
        says(r@, "protocol"@, w@.shared.config.protocol),
        member(r@, "lifecycle"@) == Some(stage@),
        counts(r@, "points"@, w@.shared.config.points.len() as int),
        counts(r@, "devices"@, w@.shared.devices.len() as int),
        counts(r@, "published_total"@, w@.shared.published_total as int),
        counts(
            r@,
            "stale_points"@,
            w@.shared.statuses.dom().filter(
                |k: model::IdentityModel| w@.shared.statuses[k].stale,
            ).len() as int,
        ),
        match w@.shared.scan_progress {
            None => member(r@, "scan_progress"@) == Some(JsonModel::Null),
            Some((current, total)) => member(r@, "scan_progress"@) matches Some(progress) && counts(
                progress,
                "current"@,
                current as int,
            ) && counts(progress, "total"@, total as int),
        },
        says(r@, "config_path"@, w@.config_path),
{
    reveal_strlit("status_line");
    reveal_strlit("protocol");
    reveal_strlit("lifecycle");
    reveal_strlit("points");
    reveal_strlit("devices");
    reveal_strlit("published_total");
    reveal_strlit("stale_points");
    reveal_strlit("scan_progress");
    reveal_strlit("config_path");
    reveal_strlit("current");
    reveal_strlit("total");
    assert("status_line"@.len() == 11);
    assert("protocol"@.len() == 8);
    assert("lifecycle"@.len() == 9);
    assert("points"@.len() == 6);
    assert("devices"@.len() == 7);
    assert("published_total"@.len() == 15);
    assert("stale_points"@.len() == 12);
    assert("scan_progress"@.len() == 13);
    assert("config_path"@.len() == 11);
    assert("current"@.len() == 7);
    assert("total"@.len() == 5);
    assert("status_line"@[0] == 's');
    assert("config_path"@[0] == 'c');
    assert("devices"@[0] == 'd');
    assert("current"@[0] == 'c');
}

/// The adapters are shown in the order of their names; one more name shows one more adapter where
/// there is one of that name, and nothing else changes.
pub proof fn law_adapters_shown(
    ids: Seq<Seq<char>>,
    id: Seq<char>,
    caps: Map<Seq<char>, model::CapsModel>,
)
    ensures
        state::capability_list(Seq::empty(), caps).len() == 0,
        caps.dom().contains(id) ==> state::capability_list(ids.push(id), caps)
            == state::capability_list(ids, caps).push(dto::capabilities_json(caps[id])),
        !caps.dom().contains(id) ==> state::capability_list(ids.push(id), caps)
            == state::capability_list(ids, caps),
{
    assert(ids.push(id).drop_last() =~= ids);
    assert(ids.push(id).last() == id);
}

/// What a browser starts from holds each part that can be asked for on its own, and the last
/// samples.
pub proof fn law_snapshot(
    w: &WebState,
    facts: &Vec<PointFacts>,
    r: Json,
    status: Json,
    capabilities: Json,
    config: Json,
    points: Json,
    logs: Json,
    i: int,
)
    requires
        facts@.len() == w@.shared.config.points.len(),
        call_ensures(api::get_state, (w, facts), r),
        call_ensures(api::get_status, (w,), status),
        call_ensures(api::get_capabilities, (w,), capabilities),
        call_ensures(api::get_config, (w,), config),
        call_ensures(api::get_points, (w, facts), points),
        call_ensures(api::get_logs, (w,), logs),
    ensures
        says(r@, "type"@, "snapshot"@),
        member(r@, "status"@) == Some(status@),
        member(r@, "capabilities"@) == member(capabilities@, "protocols"@),
        member(r@, "capabilities"@) == Some(
            JsonModel::List(state::capability_list(w@.protocol_ids, w@.caps)),
        ),
        member(r@, "config"@) == Some(config@),
        member(r@, "points"@) == Some(points@),
        member(r@, "logs"@) == member(logs@, "logs"@),
        member(r@, "recent_samples"@) == Some(JsonModel::List(w@.shared.recent_samples)),
        member(r@, "logs"@) matches Some(JsonModel::List(list)) && list.len()
            == w@.shared.logs.len() && (0 <= i < list.len() ==> {
            &&& counts(list[i], "seq"@, w@.shared.logs[i].seq as int)
            &&& counts(list[i], "ts_ms"@, w@.shared.logs[i].ts_ms as int)
            &&& says(list[i], "level"@, w@.shared.logs[i].level)
            &&& says(list[i], "message"@, w@.shared.logs[i].message)
        }),
        member(r@, "devices"@) matches Some(JsonModel::List(list)) && list.len()
            == w@.shared.devices.len() && (0 <= i < list.len() ==> {
            &&& counts(list[i], "index"@, i)
            &&& says(list[i], "key"@, w@.shared.devices[i].key)
            &&& says(list[i], "address"@, w@.shared.devices[i].address)
        }),
        member(r@, "browsed"@) matches Some(JsonModel::List(list)) && list.len()
            == w@.shared.browsed.len() && (0 <= i < list.len() ==> list[i] == dto::browsed_json(
            i,
            w@.shared.browsed[i],
        )),
{
    reveal_strlit("type");
    reveal_strlit("status");
    reveal_strlit("capabilities");
    reveal_strlit("config");
    reveal_strlit("devices");
    reveal_strlit("browsed");
    reveal_strlit("points");
    reveal_strlit("recent_samples");
    reveal_strlit("logs");
    reveal_strlit("protocols");
    reveal_strlit("seq");
    reveal_strlit("ts_ms");
    reveal_strlit("level");
    reveal_strlit("message");
    reveal_strlit("index");
    reveal_strlit("key");
    reveal_strlit("instance");
    reveal_strlit("address");
    reveal_strlit("detail");
    assert("type"@.len() == 4);
    assert("status"@.len() == 6);
    assert("capabilities"@.len() == 12);
    assert("config"@.len() == 6);
    assert("devices"@.len() == 7);
    assert("browsed"@.len() == 7);
    assert("points"@.len() == 6);
    assert("recent_samples"@.len() == 14);
    assert("logs"@.len() == 4);
    assert("protocols"@.len() == 9);
    assert("seq"@.len() == 3);
    assert("ts_ms"@.len() == 5);
    assert("level"@.len() == 5);
    assert("message"@.len() == 7);
    assert("index"@.len() == 5);
    assert("key"@.len() == 3);
    assert("instance"@.len() == 8);
    assert("address"@.len() == 7);
    assert("detail"@.len() == 6);
    assert("type"@[0] == 't');
    assert("logs"@[0] == 'l');
    assert("status"@[0] == 's');
    assert("config"@[0] == 'c');
    assert("points"@[0] == 'p');
    assert("detail"@[0] == 'd');
    assert("devices"@[0] == 'd');
    assert("browsed"@[0] == 'b');
    assert("message"@[0] == 'm');
    assert("address"@[0] == 'a');
    assert("seq"@[0] == 's');
    assert("key"@[0] == 'k');
    assert("ts_ms"@[0] == 't');
    assert("level"@[0] == 'l');
    assert("index"@[0] == 'i');
}

/// What is asked for on its own is what the daemon holds.
pub proof fn law_what_can_be_asked(
    w: &WebState,
    facts: &Vec<PointFacts>,
    status: Json,
    asked_status: Json,
    config: Json,
    asked_config: Json,
    points: Json,
    asked_points: Json,
    answer: &'static str,
)
    requires
        facts@.len() == w@.shared.config.points.len(),
        call_ensures(WebState::status_json, (w,), status),
        call_ensures(api::get_status, (w,), asked_status),
        call_ensures(redacted_config, (&w.shared.config,), config),
        call_ensures(api::get_config, (w,), asked_config),
        call_ensures(WebState::points_json, (w, facts), points),
        call_ensures(api::get_points, (w, facts), asked_points),
        call_ensures(api::health, (), answer),
    ensures
        asked_status@ == status@,
        asked_config@ == config@,
        asked_points@ == points@,
        answer@ == "ok"@,
{
}

/// Telling of the points sends their document and changes nothing else; the adapters and the whole
/// that are made are those that are asked for.
pub proof fn law_points_told(
    w: &mut WebState,
    facts: &Vec<PointFacts>,
    v: &WebState,
    points: Json,
    whole: Json,
    asked: Json,
    adapters: Json,
    capabilities: Json,
)
    requires
        call_ensures(WebState::emit_points, (w, facts), ()),
        *v == *old(w),
        facts@.len() == v@.shared.config.points.len(),
        call_ensures(WebState::points_json, (v, facts), points),
        call_ensures(WebState::snapshot_json, (v, facts), whole),
        call_ensures(api::get_state, (v, facts), asked),
        call_ensures(WebState::capabilities_json, (v,), adapters),
        call_ensures(api::get_capabilities, (v,), capabilities),
    ensures
        final(w)@ == (state::WebModel { sent: final(w)@.sent, ..old(w)@ }),
        final(w)@.sent == old(w)@.sent.push(final(w)@.sent.last()),
        says(final(w)@.sent.last(), "type"@, "points"@),
        member(final(w)@.sent.last(), "points"@) == Some(points@),
        whole@ == asked@,
        member(capabilities@, "protocols"@) == Some(adapters@),
{
    reveal_strlit("type");
    reveal_strlit("points");
    assert("type"@.len() == 4);
    assert("points"@.len() == 6);
}

/// The network interfaces are shown in their order with their names and addresses, and nothing but
/// the status changes.
pub proof fn law_interfaces(
    w: &mut WebState,
    interfaces: &Vec<Interface>,
    now_ms: i64,
    r: Json,
    i: int,
)
    requires
        call_ensures(api::get_interfaces, (w, interfaces, now_ms), r),
        old(w)@.shared.log_seq < u64::MAX,
    ensures
        member(r@, "interfaces"@) matches Some(JsonModel::List(list)) && list.len()
            == interfaces@.len() && (0 <= i < list.len() ==> says(
            list[i],
            "name"@,
            interfaces@[i].name@,
        ) && says(list[i], "addr"@, interfaces@[i].addr@)),
        one_more_line(
            old(w)@.shared,
            final(w)@.shared,
            "info"@,
            "Refreshed "@ + text::decimal(interfaces@.len()) + " network interface(s)"@,
            now_ms,
        ),
        final(w)@.shared.config == old(w)@.shared.config,
        final(w)@.shared.status_line == final(w)@.shared.logs.last().message,
{
    reveal_strlit("name");
    reveal_strlit("addr");
    reveal_strlit("interfaces");
    assert("name"@.len() == 4);
    assert("addr"@.len() == 4);
    assert("interfaces"@.len() == 10);
    assert("name"@[0] == 'n');
    assert("addr"@[0] == 'a');
    assert(final(w)@.shared.logs.drop_last() =~= if old(w)@.shared.logs.len() >= 500 {
        old(w)@.shared.logs.skip(1)
    } else {
        old(w)@.shared.logs
    });
}

/// A reply that something is wrong says what, and one that all went well says so.
pub proof fn law_plain_replies(
    message: &str,
    wrong: Json,
    right: Json,
    e: &ApiError,
    body: Json,
)
    requires
        call_ensures(ApiError::body, (e,), body),
        call_ensures(api::error_body, (message,), wrong),
        call_ensures(api::ok, (), right),
    ensures
        says(wrong@, "error"@, message@),
        says(body@, "error"@, e.message@),
        member(right@, "ok"@) == Some(JsonModel::Bool(true)),
{
}

} // verus!
