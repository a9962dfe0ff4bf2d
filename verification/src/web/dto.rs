//! The JSON shapes of the web interface: they are the agreement with the browser.

use vstd::prelude::*;
use vstd::string::*;

use crate::config;
use crate::config::AppConfig;
use crate::json;
use crate::json::{
    addressing, list_json, put, put_opt, text_opt, texts, value_opt, Fields, Json, JsonModel,
    ToJson,
};
use crate::model;
use crate::model::{
    Addressing, BrowseKind, Capabilities, DiscoveredDevice, DiscoveredPoint, DiscoveryKind,
    FieldKind, FieldSpec, PointConfig, PointFacts, PointIdentity, PointSample, PointStatus,
    RepublisherLifecycle, Value,
};
use crate::table::{duplicate_all, duplicate_opt, Duplicate};
use crate::text;
use crate::text::join;

verus! {

/// One field of a connection or of a point's addressing, as the browser sees it.
#[derive(Debug)]
pub struct FieldSpecDto {
    pub key: String,
    pub label: String,
    pub kind: &'static str,
    pub options: Option<Vec<String>>,
    pub default: Option<Value>,
    pub help: Option<String>,
}

/// The choices of a field, as JSON.
pub open spec fn opt_texts(o: Option<Seq<Seq<char>>>) -> Option<JsonModel> {
    match o {
        Some(s) => Some(json::texts_json(s)),
        None => None,
    }
}

/// The document of a field.
pub open spec fn field_document(
    key: Seq<char>,
    label: Seq<char>,
    kind: Seq<char>,
    options: Option<Seq<Seq<char>>>,
    default: Option<model::ValueModel>,
    help: Option<Seq<char>>,
) -> JsonModel {
    let required = map![
        "key"@ => JsonModel::Text(key),
        "label"@ => JsonModel::Text(label),
        "kind"@ => JsonModel::Text(kind),
    ];
    JsonModel::Object(
        json::with_opt(
            json::with_opt(
                json::with_opt(required, "options"@, opt_texts(options)),
                "default"@,
                json::opt_value(default),
            ),
            "help"@,
            json::opt_text(help),
        ),
    )
}

/// The name of a field's kind.
pub open spec fn kind_name(kind: model::FieldKindModel) -> Seq<char> {
    match kind {
        model::FieldKindModel::Text => "text"@,
        model::FieldKindModel::U32 => "u32"@,
        model::FieldKindModel::Bool => "bool"@,
        model::FieldKindModel::Enum(_) => "enum"@,
        model::FieldKindModel::Secret => "secret"@,
    }
}

/// The choices that a field's kind offers.
pub open spec fn kind_options(kind: model::FieldKindModel) -> Option<Seq<Seq<char>>> {
    match kind {
        model::FieldKindModel::Enum(options) => Some(options),
        _ => None,
    }
}

/// The document of a field: its choices only where it is a choice, its default and its help only
/// where it has them.
pub open spec fn field_json(f: model::FieldModel) -> JsonModel {
    field_document(f.key, f.label, kind_name(f.kind), kind_options(f.kind), f.default, f.help)
}

/// The views of optional texts.
pub open spec fn opt_views(o: Option<Vec<String>>) -> Option<Seq<Seq<char>>> {
    match o {
        Some(v) => Some(text::views(v@)),
        None => None,
    }
}

impl View for FieldSpecDto {
    type V = JsonModel;

    open spec fn view(&self) -> JsonModel {
        field_document(
            self.key@,
            self.label@,
            self.kind@,
            opt_views(self.options),
            text::opt(self.default),
            text::opt(self.help),
        )
    }
}

impl ToJson for FieldSpecDto {
    fn to_json(&self) -> (r: Json) {
        let mut out: Fields = Vec::new();
        put(&mut out, "key", Json::Text(self.key.clone()));
        put(&mut out, "label", Json::Text(self.label.clone()));
        put(&mut out, "kind", Json::Text(self.kind.to_string()));
        match &self.options {
            Some(options) => put(&mut out, "options", texts(options)),
            None => {},
        }
        put_opt(&mut out, "default", value_opt(&self.default));
        put_opt(&mut out, "help", text_opt(&self.help));
        Json::Object(out)
    }
}

impl FieldSpecDto {
    /// The browser's form of a field.
    pub fn of(spec: &FieldSpec) -> (r: Self)
        ensures
            r@ == field_json(spec@),
    {
        let (kind, options): (&'static str, Option<Vec<String>>) = match &spec.kind {
            FieldKind::Text => ("text", None),
            FieldKind::U32 => ("u32", None),
            FieldKind::Bool => ("bool", None),
            FieldKind::Enum(options) => ("enum", Some(duplicate_all(options))),
            FieldKind::Secret => ("secret", None),
        };
        FieldSpecDto {
            key: spec.key.clone(),
            label: spec.label.clone(),
            kind,
            options,
            default: duplicate_opt(&spec.default),
            help: duplicate_opt(&spec.help),
        }
    }
}

/// The documents of fields.
pub open spec fn fields_json(fields: Seq<model::FieldModel>) -> Seq<JsonModel> {
    Seq::new(fields.len(), |i: int| field_json(fields[i]))
}

/// The browser's form of fields.
fn field_dtos(fields: &Vec<FieldSpec>) -> (r: Vec<FieldSpecDto>)
    ensures
        text::views(r@) == fields_json(text::views(fields@)),
{
    let mut out: Vec<FieldSpecDto> = Vec::new();
    let mut i: usize = 0;
    while i < fields.len()
        invariant
            i <= fields.len(),
            out@.len() == i,
            forall|j: int| 0 <= j < i ==> (#[trigger] out@[j])@ == field_json(fields@[j]@),
        decreases fields.len() - i,
    {
        out.push(FieldSpecDto::of(&fields[i]));
        i = i + 1;
    }
    assert(text::views(out@) =~= fields_json(text::views(fields@)));
    out
}

/// What an adapter can do, as the browser sees it.
#[derive(Debug)]
pub struct CapabilitiesDto {
    pub id: String,
    pub display_name: String,
    pub discovery: &'static str,
    pub discovery_label: &'static str,
    pub browse: &'static str,
    pub connection_fields: Vec<FieldSpecDto>,
    pub addressing_fields: Vec<FieldSpecDto>,
    pub default_port: u16,
}

/// The name of a way to find devices.
pub open spec fn discovery_name(kind: DiscoveryKind) -> Seq<char> {
    match kind {
        DiscoveryKind::Broadcast => "broadcast"@,
        DiscoveryKind::EndpointQuery => "endpoint_query"@,
        DiscoveryKind::SubnetScan => "subnet_scan"@,
        DiscoveryKind::ManualOnly => "manual"@,
    }
}

/// What the discovery button says.
pub open spec fn discovery_label(kind: DiscoveryKind) -> Seq<char> {
    match kind {
        DiscoveryKind::Broadcast => "Discover (broadcast)"@,
        DiscoveryKind::EndpointQuery => "Query endpoints"@,
        DiscoveryKind::SubnetScan => "Scan subnet"@,
        DiscoveryKind::ManualOnly => "Discover"@,
    }
}

/// The name of a way to list points.
pub open spec fn browse_name(kind: BrowseKind) -> Seq<char> {
    match kind {
        BrowseKind::ObjectList => "object_list"@,
        BrowseKind::AddressSpace => "address_space"@,
        BrowseKind::RegisterScan => "register_scan"@,
        BrowseKind::NotOffered => "none"@,
    }
}

/// The document of an adapter.
pub open spec fn capabilities_json(c: model::CapsModel) -> JsonModel {
    JsonModel::Object(
        map![
            "id"@ => JsonModel::Text(c.id),
            "display_name"@ => JsonModel::Text(c.display_name),
            "discovery"@ => JsonModel::Text(discovery_name(c.discovery)),
            "discovery_label"@ => JsonModel::Text(discovery_label(c.discovery)),
            "browse"@ => JsonModel::Text(browse_name(c.browse)),
            "connection_fields"@ => JsonModel::List(fields_json(c.connection_fields)),
            "addressing_fields"@ => JsonModel::List(fields_json(c.addressing_fields)),
            "default_port"@ => JsonModel::Number(c.default_port as int),
        ],
    )
}

impl View for CapabilitiesDto {
    type V = JsonModel;

    open spec fn view(&self) -> JsonModel {
        JsonModel::Object(
            map![
                "id"@ => JsonModel::Text(self.id@),
                "display_name"@ => JsonModel::Text(self.display_name@),
                "discovery"@ => JsonModel::Text(self.discovery@),
                "discovery_label"@ => JsonModel::Text(self.discovery_label@),
                "browse"@ => JsonModel::Text(self.browse@),
                "connection_fields"@ => JsonModel::List(text::views(self.connection_fields@)),
                "addressing_fields"@ => JsonModel::List(text::views(self.addressing_fields@)),
                "default_port"@ => JsonModel::Number(self.default_port as int),
            ],
        )
    }
}

impl ToJson for CapabilitiesDto {
    fn to_json(&self) -> (r: Json) {
        let mut out: Fields = Vec::new();
        put(&mut out, "id", Json::Text(self.id.clone()));
        put(&mut out, "display_name", Json::Text(self.display_name.clone()));
        put(&mut out, "discovery", Json::Text(self.discovery.to_string()));
        put(&mut out, "discovery_label", Json::Text(self.discovery_label.to_string()));
        put(&mut out, "browse", Json::Text(self.browse.to_string()));
        put(&mut out, "connection_fields", list_json(&self.connection_fields));
        put(&mut out, "addressing_fields", list_json(&self.addressing_fields));
        put(&mut out, "default_port", Json::Uint(self.default_port as u64));
        Json::Object(out)
    }
}

impl CapabilitiesDto {
    /// The browser's form of an adapter.
    pub fn of(caps: &Capabilities) -> (r: Self)
        ensures
            r@ == capabilities_json(caps@),
    {
        let (discovery, discovery_label): (&'static str, &'static str) = match caps.discovery {
            DiscoveryKind::Broadcast => ("broadcast", "Discover (broadcast)"),
            DiscoveryKind::EndpointQuery => ("endpoint_query", "Query endpoints"),
            DiscoveryKind::SubnetScan => ("subnet_scan", "Scan subnet"),
            DiscoveryKind::ManualOnly => ("manual", "Discover"),
        };
        let browse: &'static str = match caps.browse {
            BrowseKind::ObjectList => "object_list",
            BrowseKind::AddressSpace => "address_space",
            BrowseKind::RegisterScan => "register_scan",
            BrowseKind::NotOffered => "none",
        };
        CapabilitiesDto {
            id: caps.id.clone(),
            display_name: caps.display_name.clone(),
            discovery,
            discovery_label,
            browse,
            connection_fields: field_dtos(&caps.connection_fields),
            addressing_fields: field_dtos(&caps.addressing_fields),
            default_port: caps.default_port,
        }
    }
}

/// A discovered device, as the browser sees it.
#[derive(Debug)]
pub struct DeviceDto {
    pub index: usize,
    pub key: String,
    pub instance: Option<u32>,
    pub address: String,
    pub detail: String,
}

/// A number or nothing, as JSON.
pub open spec fn opt_u32(o: Option<u32>) -> Option<JsonModel> {
    match o {
        Some(n) => Some(JsonModel::Number(n as int)),
        None => None,
    }
}

/// The document of a discovered device.
pub open spec fn device_json(index: int, d: model::DeviceModel) -> JsonModel {
    let start = map!["index"@ => JsonModel::Number(index), "key"@ => JsonModel::Text(d.key)];
    JsonModel::Object(
        json::with_opt(start, "instance"@, opt_u32(d.instance)).insert(
            "address"@,
            JsonModel::Text(d.address),
        ).insert("detail"@, JsonModel::Text(d.detail)),
    )
}

impl View for DeviceDto {
    type V = JsonModel;

    open spec fn view(&self) -> JsonModel {
        device_json(
            self.index as int,
            model::DeviceModel {
                key: self.key@,
                instance: self.instance,
                address: self.address@,
                detail: self.detail@,
            },
        )
    }
}

impl ToJson for DeviceDto {
    fn to_json(&self) -> (r: Json) {
        let mut out: Fields = Vec::new();
        put(&mut out, "index", Json::Uint(self.index as u64));
        put(&mut out, "key", Json::Text(self.key.clone()));
        match self.instance {
            Some(n) => put(&mut out, "instance", Json::Uint(n as u64)),
            None => {},
        }
        put(&mut out, "address", Json::Text(self.address.clone()));
        put(&mut out, "detail", Json::Text(self.detail.clone()));
        Json::Object(out)
    }
}

/// The browser's form of the device at `index` of the discovered ones.
pub fn device_dto(index: usize, device: &DiscoveredDevice) -> (r: DeviceDto)
    ensures
        r.index == index,
        r.key@ == device@.key,
        r.instance == device@.instance,
        r.address@ == device@.address,
        r.detail@ == device@.detail,
        r@ == device_json(index as int, device@),
{
    DeviceDto {
        index,
        key: device.key.clone(),
        instance: device.instance,
        address: device.address.clone(),
        detail: device.detail.clone(),
    }
}

/// `name=text` for each pair.
pub open spec fn shown_pairs(s: Seq<(Seq<char>, Seq<char>)>) -> Seq<Seq<char>> {
    Seq::new(s.len(), |i: int| s[i].0 + "="@ + s[i].1)
}

/// `name=text` for each pair.
fn show_pairs(pairs: &Vec<(String, String)>) -> (r: Vec<String>)
    ensures
        text::views(r@) == shown_pairs(model::pair_views(pairs@)),
{
    let mut out: Vec<String> = Vec::new();
    let mut i: usize = 0;
    while i < pairs.len()
        invariant
            i <= pairs.len(),
            out@.len() == i,
            forall|j: int|
                0 <= j < i ==> (#[trigger] out@[j])@ == pairs@[j].0@ + "="@ + pairs@[j].1@,
        decreases pairs.len() - i,
    {
        let mut shown = pairs[i].0.clone();
        shown.append("=");
        shown.append(pairs[i].1.as_str());
        out.push(shown);
        i = i + 1;
    }
    assert(text::views(out@) =~= shown_pairs(model::pair_views(pairs@)));
    out
}

/// How an addressing is shown: `name=text` for each value, with spaces between.
pub open spec fn addressing_shown(rendered: Seq<(Seq<char>, Seq<char>)>) -> Seq<char> {
    text::joined(shown_pairs(rendered), " "@)
}

/// How an addressing, whose values are given as text, is shown.
pub fn addressing_display(rendered: &Vec<(String, String)>) -> (r: String)
    ensures
        r@ == addressing_shown(model::pair_views(rendered@)),
{
    join(&show_pairs(rendered), " ")
}

/// The key by which the browser joins statuses to points and samples: the addressing alone, so
/// that it outlives a new name for the device.
pub open spec fn identity_text(identity: model::IdentityModel) -> Seq<char> {
    text::joined(shown_pairs(identity.addressing), ","@)
}

/// Stable text key for a point identity.
pub fn identity_key(identity: &PointIdentity) -> (r: String)
    ensures
        r@ == identity_text(identity@),
{
    join(&show_pairs(&identity.addressing), ",")
}

/// A point found by browsing, as the browser sees it.
#[derive(Debug)]
pub struct BrowsedPointDto {
    pub index: usize,
    pub device_key: String,
    pub name: Option<String>,
    pub description: Option<String>,
    pub units: Option<String>,
    pub value: Option<Value>,
    pub value_display: Option<String>,
    pub addressing: Addressing,
    pub addressing_display: String,
    pub suggested_tag_path: String,
}

/// The JSON of an optional point value.
pub open spec fn value_of(v: Option<model::PointValueModel>) -> Option<model::ValueModel> {
    match v {
        Some(p) => Some(p.json),
        None => None,
    }
}

/// How an optional point value is shown.
pub open spec fn display_of(v: Option<model::PointValueModel>) -> Option<Seq<char>> {
    match v {
        Some(p) => Some(p.display),
        None => None,
    }
}

/// The document of a browsed point.
pub open spec fn browsed_document(
    index: int,
    device_key: Seq<char>,
    name: Option<Seq<char>>,
    description: Option<Seq<char>>,
    units: Option<Seq<char>>,
    value: Option<model::ValueModel>,
    value_display: Option<Seq<char>>,
    addressing: model::AddressingModel,
    addressing_display: Seq<char>,
    suggested_tag_path: Seq<char>,
) -> JsonModel {
    let m0 = map![
        "index"@ => JsonModel::Number(index),
        "device_key"@ => JsonModel::Text(device_key),
    ];
    let m1 = json::with_opt(m0, "name"@, json::opt_text(name));
    let m2 = json::with_opt(m1, "description"@, json::opt_text(description));
    let m3 = json::with_opt(m2, "units"@, json::opt_text(units));
    let m4 = json::with_opt(m3, "value"@, json::opt_value(value));
    let m5 = json::with_opt(m4, "value_display"@, json::opt_text(value_display));
    JsonModel::Object(
        m5.insert("addressing"@, json::addressing_json(addressing)).insert(
            "addressing_display"@,
            JsonModel::Text(addressing_display),
        ).insert("suggested_tag_path"@, JsonModel::Text(suggested_tag_path)),
    )
}

/// The document of the browsed point at `index`.
pub open spec fn browsed_json(index: int, p: model::BrowsedModel) -> JsonModel {
    browsed_document(
        index,
        p.device_key,
        p.name,
        p.description,
        p.units,
        value_of(p.value),
        display_of(p.value),
        p.addressing,
        addressing_shown(p.rendered),
        p.suggested_tag_path,
    )
}

impl View for BrowsedPointDto {
    type V = JsonModel;

    open spec fn view(&self) -> JsonModel {
        browsed_document(
            self.index as int,
            self.device_key@,
            text::opt(self.name),
            text::opt(self.description),
            text::opt(self.units),
            text::opt(self.value),
            text::opt(self.value_display),
            self.addressing@,
            self.addressing_display@,
            self.suggested_tag_path@,
        )
    }
}

impl ToJson for BrowsedPointDto {
    fn to_json(&self) -> (r: Json) {
        let mut out: Fields = Vec::new();
        put(&mut out, "index", Json::Uint(self.index as u64));
        put(&mut out, "device_key", Json::Text(self.device_key.clone()));
        put_opt(&mut out, "name", text_opt(&self.name));
        put_opt(&mut out, "description", text_opt(&self.description));
        put_opt(&mut out, "units", text_opt(&self.units));
        put_opt(&mut out, "value", value_opt(&self.value));
        put_opt(&mut out, "value_display", text_opt(&self.value_display));
        put(&mut out, "addressing", addressing(&self.addressing));
        put(&mut out, "addressing_display", Json::Text(self.addressing_display.clone()));
        put(&mut out, "suggested_tag_path", Json::Text(self.suggested_tag_path.clone()));
        Json::Object(out)
    }
}

/// The JSON of an optional point value.
fn json_of(v: &Option<model::PointValue>) -> (r: Option<Value>)
    ensures
        text::opt(r) == value_of(text::opt(*v)),
{
    match v {
        Some(p) => Some(p.json.duplicate()),
        None => None,
    }
}

/// How an optional point value is shown.
fn shown_of(v: &Option<model::PointValue>) -> (r: Option<String>)
    ensures
        text::opt(r) == display_of(text::opt(*v)),
{
    match v {
        Some(p) => Some(p.display.clone()),
        None => None,
    }
}

/// The browser's form of the browsed point at `index`.
pub fn browsed_dto(index: usize, point: &DiscoveredPoint) -> (r: BrowsedPointDto)
    ensures
        r@ == browsed_json(index as int, point@),
{
    BrowsedPointDto {
        index,
        device_key: point.device_key.clone(),
        name: duplicate_opt(&point.name),
        description: duplicate_opt(&point.description),
        units: duplicate_opt(&point.units),
        value: json_of(&point.value),
        value_display: shown_of(&point.value),
        addressing: point.addressing.duplicate(),
        addressing_display: addressing_display(&point.rendered),
        suggested_tag_path: point.suggested_tag_path.clone(),
    }
}

/// A point's status, as the browser sees it.
#[derive(Debug)]
pub struct PointStatusDto {
    pub state: &'static str,
    pub last_value: Option<Value>,
    pub last_value_display: Option<String>,
    pub last_sample_ms: Option<i64>,
    pub stale: bool,
    pub consecutive_failures: u32,
    pub last_error: Option<String>,
    pub last_publish_error: Option<String>,
}

/// The state that a status chip shows: a failed publication before a failed read before a stale
/// value; `unknown` where nothing is known of the point.
pub open spec fn status_state(status: Option<model::StatusModel>) -> Seq<char> {
    match status {
        None => "unknown"@,
        Some(s) => if s.last_publish_error is Some {
            "publish_error"@
        } else if s.last_error is Some {
            "read_error"@
        } else if s.stale {
            "stale"@
        } else {
            "ok"@
        },
    }
}

/// The status of a point of which nothing is known.
pub open spec fn unknown_status() -> model::StatusModel {
    model::StatusModel {
        last_value: None,
        last_sample_ms: None,
        stale: true,
        consecutive_failures: 0,
        last_error: None,
        last_publish_error: None,
    }
}

/// A number or nothing, as JSON.
pub open spec fn opt_i64(o: Option<i64>) -> Option<JsonModel> {
    match o {
        Some(n) => Some(JsonModel::Number(n as int)),
        None => None,
    }
}

/// The document of a status.
pub open spec fn status_document(
    state: Seq<char>,
    last_value: Option<model::ValueModel>,
    last_value_display: Option<Seq<char>>,
    last_sample_ms: Option<i64>,
    stale: bool,
    consecutive_failures: u32,
    last_error: Option<Seq<char>>,
    last_publish_error: Option<Seq<char>>,
) -> JsonModel {
    let m0 = map!["state"@ => JsonModel::Text(state)];
    let m1 = json::with_opt(m0, "last_value"@, json::opt_value(last_value));
    let m2 = json::with_opt(m1, "last_value_display"@, json::opt_text(last_value_display));
    let m3 = json::with_opt(m2, "last_sample_ms"@, opt_i64(last_sample_ms));
    let m4 = m3.insert("stale"@, JsonModel::Bool(stale)).insert(
        "consecutive_failures"@,
        JsonModel::Number(consecutive_failures as int),
    );
    let m5 = json::with_opt(m4, "last_error"@, json::opt_text(last_error));
    JsonModel::Object(
        json::with_opt(m5, "last_publish_error"@, json::opt_text(last_publish_error)),
    )
}

/// The document of what is known of a point.
pub open spec fn point_status_json(status: Option<model::StatusModel>) -> JsonModel {
    let s = match status {
        Some(known) => known,
        None => unknown_status(),
    };
    status_document(
        status_state(status),
        value_of(s.last_value),
        display_of(s.last_value),
        s.last_sample_ms,
        s.stale,
        s.consecutive_failures,
        s.last_error,
        s.last_publish_error,
    )
}

impl View for PointStatusDto {
    type V = JsonModel;

    open spec fn view(&self) -> JsonModel {
        status_document(
            self.state@,
            text::opt(self.last_value),
            text::opt(self.last_value_display),
            self.last_sample_ms,
            self.stale,
            self.consecutive_failures,
            text::opt(self.last_error),
            text::opt(self.last_publish_error),
        )
    }
}

impl ToJson for PointStatusDto {
    fn to_json(&self) -> (r: Json) {
        let mut out: Fields = Vec::new();
        put(&mut out, "state", Json::Text(self.state.to_string()));
        put_opt(&mut out, "last_value", value_opt(&self.last_value));
        put_opt(&mut out, "last_value_display", text_opt(&self.last_value_display));
        match self.last_sample_ms {
            Some(n) => put(&mut out, "last_sample_ms", Json::Int(n)),
            None => {},
        }
        put(&mut out, "stale", Json::Bool(self.stale));
        put(&mut out, "consecutive_failures", Json::Uint(self.consecutive_failures as u64));
        put_opt(&mut out, "last_error", text_opt(&self.last_error));
        put_opt(&mut out, "last_publish_error", text_opt(&self.last_publish_error));
        Json::Object(out)
    }
}

/// The view of an optional status.
pub open spec fn opt_status(status: Option<&PointStatus>) -> Option<model::StatusModel> {
    match status {
        Some(s) => Some(s@),
        None => None,
    }
}

/// The browser's form of a status. A failed publication comes before a failed read, and that
/// before a stale value; a point without a status is unknown.
pub fn status_dto(status: Option<&PointStatus>) -> (r: PointStatusDto)
    ensures
        r.state@ == status_state(opt_status(status)),
        r@ == point_status_json(opt_status(status)),
{
    match status {
        None => PointStatusDto {
            state: "unknown",
            last_value: None,
            last_value_display: None,
            last_sample_ms: None,
            stale: true,
            consecutive_failures: 0,
            last_error: None,
            last_publish_error: None,
        },
        Some(status) => {
            let state: &'static str = if status.last_publish_error.is_some() {
                "publish_error"
            } else if status.last_error.is_some() {
                "read_error"
            } else if status.stale {
                "stale"
            } else {
                "ok"
            };
            PointStatusDto {
                state,
                last_value: json_of(&status.last_value),
                last_value_display: shown_of(&status.last_value),
                last_sample_ms: status.last_sample_ms,
                stale: status.stale,
                consecutive_failures: status.consecutive_failures,
                last_error: duplicate_opt(&status.last_error),
                last_publish_error: duplicate_opt(&status.last_publish_error),
            }
        },
    }
}

/// A configured point, as the browser sees it.
#[derive(Debug)]
pub struct PointDto {
    pub index: usize,
    pub identity: String,
    pub enabled: bool,
    pub device_key: String,
    pub tag_path: String,
    pub poll_interval_secs: u64,
    pub addressing: Addressing,
    pub addressing_display: String,
    pub display_name: String,
    pub topic: String,
    pub status: PointStatusDto,
}

/// The document of a configured point.
pub open spec fn point_document(
    index: int,
    identity: Seq<char>,
    p: model::PointModel,
    addressing_display: Seq<char>,
    display_name: Seq<char>,
    topic: Seq<char>,
    status: JsonModel,
) -> JsonModel {
    JsonModel::Object(
        map![
            "index"@ => JsonModel::Number(index),
            "identity"@ => JsonModel::Text(identity),
            "enabled"@ => JsonModel::Bool(p.enabled),
            "device_key"@ => JsonModel::Text(p.device_key),
            "tag_path"@ => JsonModel::Text(p.tag_path),
            "poll_interval_secs"@ => JsonModel::Number(p.poll_interval_secs as int),
            "addressing"@ => json::addressing_json(p.addressing),
            "addressing_display"@ => JsonModel::Text(addressing_display),
            "display_name"@ => JsonModel::Text(display_name),
            "topic"@ => JsonModel::Text(topic),
            "status"@ => status,
        ],
    )
}

/// The document of the configured point at `index`.
pub open spec fn point_json(
    index: int,
    p: model::PointModel,
    f: model::FactsModel,
    status: Option<model::StatusModel>,
) -> JsonModel {
    point_document(
        index,
        identity_text(f.identity),
        p,
        addressing_shown(f.rendered),
        f.display_name,
        f.topic,
        point_status_json(status),
    )
}

impl View for PointDto {
    type V = JsonModel;

    open spec fn view(&self) -> JsonModel {
        point_document(
            self.index as int,
            self.identity@,
            model::PointModel {
                enabled: self.enabled,
                device_key: self.device_key@,
                addressing: self.addressing@,
                tag_path: self.tag_path@,
                poll_interval_secs: self.poll_interval_secs,
            },
            self.addressing_display@,
            self.display_name@,
            self.topic@,
            self.status@,
        )
    }
}

impl ToJson for PointDto {
    fn to_json(&self) -> (r: Json) {
        let mut out: Fields = Vec::new();
        put(&mut out, "index", Json::Uint(self.index as u64));
        put(&mut out, "identity", Json::Text(self.identity.clone()));
        put(&mut out, "enabled", Json::Bool(self.enabled));
        put(&mut out, "device_key", Json::Text(self.device_key.clone()));
        put(&mut out, "tag_path", Json::Text(self.tag_path.clone()));
        put(&mut out, "poll_interval_secs", Json::Uint(self.poll_interval_secs));
        put(&mut out, "addressing", addressing(&self.addressing));
        put(&mut out, "addressing_display", Json::Text(self.addressing_display.clone()));
        put(&mut out, "display_name", Json::Text(self.display_name.clone()));
        put(&mut out, "topic", Json::Text(self.topic.clone()));
        put(&mut out, "status", self.status.to_json());
        Json::Object(out)
    }
}

/// The browser's form of the configured point at `index`.
pub fn point_dto(
    index: usize,
    point: &PointConfig,
    facts: &PointFacts,
    status: Option<&PointStatus>,
) -> (r: PointDto)
    ensures
        r@ == point_json(index as int, point@, facts@, opt_status(status)),
{
    PointDto {
        index,
        identity: identity_key(&facts.identity),
        enabled: point.enabled,
        device_key: point.device_key.clone(),
        tag_path: point.tag_path.clone(),
        poll_interval_secs: point.poll_interval_secs,
        addressing: point.addressing.duplicate(),
        addressing_display: addressing_display(&facts.rendered),
        display_name: facts.display_name.clone(),
        topic: facts.topic.clone(),
        status: status_dto(status),
    }
}

/// A sample, as the browser sees it.
#[derive(Debug)]
pub struct SampleDto {
    pub identity: String,
    pub device_key: String,
    pub tag_path: String,
    pub display_name: String,
    pub topic: String,
    pub value: Value,
    pub value_display: String,
    pub timestamp_ms: i64,
}

/// The document of a sample.
pub open spec fn sample_document(
    identity: Seq<char>,
    device_key: Seq<char>,
    tag_path: Seq<char>,
    display_name: Seq<char>,
    topic: Seq<char>,
    value: model::PointValueModel,
    timestamp_ms: int,
) -> JsonModel {
    JsonModel::Object(
        map![
            "identity"@ => JsonModel::Text(identity),
            "device_key"@ => JsonModel::Text(device_key),
            "tag_path"@ => JsonModel::Text(tag_path),
            "display_name"@ => JsonModel::Text(display_name),
            "topic"@ => JsonModel::Text(topic),
            "value"@ => JsonModel::Value(value.json),
            "value_display"@ => JsonModel::Text(value.display),
            "timestamp_ms"@ => JsonModel::Number(timestamp_ms),
        ],
    )
}

/// The document of a sample.
pub open spec fn sample_json(s: model::SampleModel) -> JsonModel {
    sample_document(
        identity_text(s.identity),
        s.device_key,
        s.tag_path,
        s.display_name,
        s.topic,
        s.value,
        s.timestamp_ms as int,
    )
}

impl View for SampleDto {
    type V = JsonModel;

    open spec fn view(&self) -> JsonModel {
        sample_document(
            self.identity@,
            self.device_key@,
            self.tag_path@,
            self.display_name@,
            self.topic@,
            model::PointValueModel { json: self.value@, display: self.value_display@ },
            self.timestamp_ms as int,
        )
    }
}

impl ToJson for SampleDto {
    fn to_json(&self) -> (r: Json) {
        let mut out: Fields = Vec::new();
        put(&mut out, "identity", Json::Text(self.identity.clone()));
        put(&mut out, "device_key", Json::Text(self.device_key.clone()));
        put(&mut out, "tag_path", Json::Text(self.tag_path.clone()));
        put(&mut out, "display_name", Json::Text(self.display_name.clone()));
        put(&mut out, "topic", Json::Text(self.topic.clone()));
        put(&mut out, "value", Json::Value(self.value.duplicate()));
        put(&mut out, "value_display", Json::Text(self.value_display.clone()));
        put(&mut out, "timestamp_ms", Json::Int(self.timestamp_ms));
        Json::Object(out)
    }
}

/// The browser's form of a sample.
pub fn sample_dto(sample: &PointSample) -> (r: SampleDto)
    ensures
        r@ == sample_json(sample@),
{
    SampleDto {
        identity: identity_key(&sample.identity),
        device_key: sample.device_key.clone(),
        tag_path: sample.tag_path.clone(),
        display_name: sample.display_name.clone(),
        topic: sample.topic.clone(),
        value: sample.value.json.duplicate(),
        value_display: sample.value.display.clone(),
        timestamp_ms: sample.timestamp_ms,
    }
}

/// The document of a lifecycle state.
pub open spec fn lifecycle_json(l: model::LifecycleModel) -> JsonModel {
    let (state, error) = match l {
        model::LifecycleModel::Starting => ("starting"@, JsonModel::Null),
        model::LifecycleModel::Running => ("running"@, JsonModel::Null),
        model::LifecycleModel::Stopping => ("stopping"@, JsonModel::Null),
        model::LifecycleModel::Stopped => ("stopped"@, JsonModel::Null),
        model::LifecycleModel::Failed(error) => ("failed"@, JsonModel::Text(error)),
    };
    JsonModel::Object(map!["state"@ => JsonModel::Text(state), "error"@ => error])
}

/// The document of a lifecycle state.
pub fn lifecycle_dto(lifecycle: &RepublisherLifecycle) -> (r: Json)
    ensures
        r@ == lifecycle_json(lifecycle@),
{
    let (state, error): (&'static str, Json) = match lifecycle {
        RepublisherLifecycle::Starting => ("starting", Json::Null),
        RepublisherLifecycle::Running => ("running", Json::Null),
        RepublisherLifecycle::Stopping => ("stopping", Json::Null),
        RepublisherLifecycle::Stopped => ("stopped", Json::Null),
        RepublisherLifecycle::Failed(error) => ("failed", Json::Text(error.clone())),
    };
    let mut out: Fields = Vec::new();
    put(&mut out, "state", Json::Text(state.to_string()));
    put(&mut out, "error", error);
    Json::Object(out)
}

/// `c` without the secrets that are only ever written.
pub open spec fn without_secrets(c: config::ConfigModel) -> config::ConfigModel {
    config::ConfigModel {
        mqtt: config::MqttModel { password: None, client_key_passphrase: None, ..c.mqtt },
        ..c
    }
}

/// The document of a configuration: without its secrets, and with flags that say which are set.
pub open spec fn redacted_json(c: config::ConfigModel) -> JsonModel {
    JsonModel::Object(
        map![
            "config"@ => JsonModel::Config(without_secrets(c)),
            "secrets"@ => JsonModel::Object(map![
                "password_set"@ => JsonModel::Bool(c.mqtt.password is Some),
                "client_key_passphrase_set"@ => JsonModel::Bool(c.mqtt.client_key_passphrase is Some),
            ]),
        ],
    )
}

/// The configuration without its secrets, and with flags that say which are set.
pub fn redacted_config(config: &AppConfig) -> (r: Json)
    ensures
        r@ == redacted_json(config@),
{
    let mut clone = config.duplicate();
    clone.mqtt.password = None;
    clone.mqtt.client_key_passphrase = None;
    let mut secrets: Fields = Vec::new();
    put(&mut secrets, "password_set", Json::Bool(config.mqtt.password.is_some()));
    put(
        &mut secrets,
        "client_key_passphrase_set",
        Json::Bool(config.mqtt.client_key_passphrase.is_some()),
    );
    let mut out: Fields = Vec::new();
    put(&mut out, "config", Json::Config(Box::new(clone)));
    put(&mut out, "secrets", Json::Object(secrets));
    Json::Object(out)
}

} // verus!
