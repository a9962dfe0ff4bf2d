//! What each request of the web interface does: one function per action, each with the reply.
//!
//! A request that changes the configuration comes in two halves. The first changes it and says
//! what is left to do; then the configuration is validated and written to disk; and
//! [`finish_save`] takes what came of that. A request that starts a worker says which.

use vstd::prelude::*;
use vstd::string::*;

use crate::config;
use crate::config::{MqttConfig, PayloadFormat};
use crate::json::{list_json, put, Fields, Json, JsonModel, ToJson};
use crate::model;
use crate::model::{
    Addressing, DiscoveredDevice, FieldKind, FieldSpec, LogLevel, PointConfig, PointFacts,
    PointIdentity, RepublisherLifecycle, Value,
};
use crate::table::{duplicate_all, Duplicate, Table, TableKey};
use crate::text;
use crate::text::{decimal_text, parse_u64, same, trim};
use crate::web::auth;
use crate::web::auth::{new_token, Auth, ClientIp};
use crate::web::dto;
use crate::web::dto::redacted_config;
use crate::web::envcfg;
use crate::web::state;
use crate::web::state::{event, logs_json, progress, SaveOutcome, WebState};

verus! {

/// A refused request: the HTTP status and what is said.
#[derive(Debug)]
pub struct ApiError {
    pub status: u16,
    pub message: String,
}

/// What an [`ApiError`] stands for.
pub struct ErrorModel {
    pub status: u16,
    pub message: Seq<char>,
}

impl View for ApiError {
    type V = ErrorModel;

    open spec fn view(&self) -> ErrorModel {
        ErrorModel { status: self.status, message: self.message@ }
    }
}

/// The document that says what is wrong.
pub open spec fn error_json(message: Seq<char>) -> JsonModel {
    JsonModel::Object(map!["error"@ => JsonModel::Text(message)])
}

/// The document that says what is wrong.
pub fn error_body(message: &str) -> (r: Json)
    ensures
        r@ == error_json(message@),
{
    let mut out: Fields = Vec::new();
    put(&mut out, "error", Json::Text(message.to_string()));
    Json::Object(out)
}

impl ApiError {
    /// The reply's body.
    pub fn body(&self) -> (r: Json)
        ensures
            r@ == error_json(self@.message),
    {
        error_body(&self.message)
    }
}

/// The request makes no sense.
pub open spec fn bad(message: Seq<char>) -> ErrorModel {
    ErrorModel { status: 400, message }
}

/// The request does not go with the present state.
pub open spec fn conflicting(message: Seq<char>) -> ErrorModel {
    ErrorModel { status: 409, message }
}

/// What the request names is not there.
pub open spec fn missing(message: Seq<char>) -> ErrorModel {
    ErrorModel { status: 404, message }
}

/// The request makes no sense.
fn bad_request(message: &str) -> (r: ApiError)
    ensures
        r@ == bad(message@),
{
    ApiError { status: 400, message: message.to_string() }
}

/// The request does not go with the present state.
fn conflict(message: &str) -> (r: ApiError)
    ensures
        r@ == conflicting(message@),
{
    ApiError { status: 409, message: message.to_string() }
}

/// What the request names is not there.
fn not_found(message: &str) -> (r: ApiError)
    ensures
        r@ == missing(message@),
{
    ApiError { status: 404, message: message.to_string() }
}

/// The document of a request that was carried out.
pub open spec fn ok_json() -> JsonModel {
    JsonModel::Object(map!["ok"@ => JsonModel::Bool(true)])
}

/// The document of a request that was carried out.
pub fn ok() -> (r: Json)
    ensures
        r@ == ok_json(),
{
    let mut out: Fields = Vec::new();
    put(&mut out, "ok", Json::Bool(true));
    Json::Object(out)
}

/// The view of a reply.
pub open spec fn reply<T: View>(r: Result<T, ApiError>) -> Result<T::V, ErrorModel> {
    match r {
        Ok(v) => Ok(v@),
        Err(e) => Err(e@),
    }
}

/// Texts by name, as a form sends them.
pub type FormValues = Table<String, String>;

/// The text of a field; none where it was not sent.
pub open spec fn raw_value(values: Map<Seq<char>, Seq<char>>, key: Seq<char>) -> Seq<char> {
    if values.dom().contains(key) {
        values[key]
    } else {
        Seq::empty()
    }
}

/// What a field's text stands for. A number that is none stays as text.
pub open spec fn typed_value(kind: model::FieldKindModel, raw: Seq<char>) -> model::ValueModel {
    match kind {
        model::FieldKindModel::U32 => match text::number(text::trimmed(raw), u64::MAX as nat) {
            Some(n) => model::ValueModel::Number(text::decimal(n)),
            None => model::ValueModel::Text(raw),
        },
        model::FieldKindModel::Bool => model::ValueModel::Bool(raw == "true"@),
        _ => model::ValueModel::Text(raw),
    }
}

/// The addressing that a form stands for: one value for each field.
pub open spec fn built(
    specs: Seq<model::FieldModel>,
    values: Map<Seq<char>, Seq<char>>,
) -> model::AddressingModel
    decreases specs.len(),
{
    if specs.len() == 0 {
        Map::empty()
    } else {
        built(specs.drop_last(), values).insert(
            specs.last().key,
            typed_value(specs.last().kind, raw_value(values, specs.last().key)),
        )
    }
}

/// The addressing that a form stands for.
pub fn build_addressing(specs: &Vec<FieldSpec>, values: &FormValues) -> (r: Addressing)
    ensures
        r@ == built(text::views(specs@), values@),
{
    let mut out: Addressing = Table::new();
    let mut i: usize = 0;
    let ghost shown = text::views(specs@);
    assert(shown.take(0) =~= Seq::empty());
    while i < specs.len()
        invariant
            i <= specs.len(),
            shown == text::views(specs@),
            out@ == built(shown.take(i as int), values@),
        decreases specs.len() - i,
    {
        proof {
            assert(shown.take(i + 1).drop_last() =~= shown.take(i as int));
        }
        let raw: String = match values.get(&specs[i].key) {
            Some(v) => v.clone(),
            None => String::new(),
        };
        assert(raw@ == raw_value(values@, specs@[i as int].key@));
        let value: Value = match &specs[i].kind {
            FieldKind::U32 => match parse_u64(trim(&raw)) {
                Ok(n) => Value::Number(decimal_text(n)),
                Err(_) => Value::Text(raw),
            },
            FieldKind::Bool => Value::Bool(same(&raw, "true")),
            _ => Value::Text(raw),
        };
        out.insert(specs[i].key.clone(), value);
        i = i + 1;
    }
    assert(shown.take(shown.len() as int) =~= shown);
    out
}

/// What the health probe is answered.
pub fn health() -> (r: &'static str)
    ensures
        r@ == "ok"@,
{
    "ok"
}

/// The whole state.
pub fn get_state(state: &WebState, facts: &Vec<PointFacts>) -> (r: Json)
    requires
        facts@.len() == state@.shared.config.points.len(),
    ensures
        r@ == state::snapshot_document(state@, text::views(facts@)),
{
    state.snapshot_json(facts)
}

/// The status.
pub fn get_status(state: &WebState) -> (r: Json)
    ensures
        r@ == state::status_document(state@),
{
    state.status_json()
}

/// A document with one member.
pub open spec fn single(key: Seq<char>, value: JsonModel) -> JsonModel {
    JsonModel::Object(map![key => value])
}

/// The adapters.
pub fn get_capabilities(state: &WebState) -> (r: Json)
    ensures
        r@ == single(
            "protocols"@,
            JsonModel::List(state::capability_list(state@.protocol_ids, state@.caps)),
        ),
{
    let mut out: Fields = Vec::new();
    put(&mut out, "protocols", state.capabilities_json());
    Json::Object(out)
}

/// The configuration without its secrets.
pub fn get_config(state: &WebState) -> (r: Json)
    ensures
        r@ == dto::redacted_json(state@.shared.config),
{
    redacted_config(&state.shared.config)
}

/// The configured points.
pub fn get_points(state: &WebState, facts: &Vec<PointFacts>) -> (r: Json)
    requires
        facts@.len() == state@.shared.config.points.len(),
    ensures
        r@ == state::points_document(state@.shared, text::views(facts@)),
{
    state.points_json(facts)
}

/// The log.
pub fn get_logs(state: &WebState) -> (r: Json)
    ensures
        r@ == single("logs"@, state::logs_document(state@.shared.logs)),
{
    let mut out: Fields = Vec::new();
    put(&mut out, "logs", logs_json(&state.shared.logs));
    Json::Object(out)
}

/// A network interface and its address.
#[derive(Debug)]
pub struct Interface {
    pub name: String,
    pub addr: String,
}

impl View for Interface {
    type V = JsonModel;

    open spec fn view(&self) -> JsonModel {
        JsonModel::Object(
            map!["name"@ => JsonModel::Text(self.name@), "addr"@ => JsonModel::Text(self.addr@)],
        )
    }
}

impl ToJson for Interface {
    fn to_json(&self) -> (r: Json) {
        let mut out: Fields = Vec::new();
        put(&mut out, "name", Json::Text(self.name.clone()));
        put(&mut out, "addr", Json::Text(self.addr.clone()));
        Json::Object(out)
    }
}

/// The network interfaces, as the system lists them; that they were listed is noted.
pub fn get_interfaces(state: &mut WebState, interfaces: &Vec<Interface>, now_ms: i64) -> (r: Json)
    requires
        old(state)@.shared.has_room(1),
    ensures
        old(state)@.shared.well_formed() ==> final(state)@.shared.well_formed(),
        final(state)@ == state::status_set(
            old(state)@,
            LogLevel::Info,
            "Refreshed "@ + text::decimal(interfaces@.len()) + " network interface(s)"@,
            now_ms,
        ),
        r@ == single("interfaces"@, JsonModel::List(text::views(interfaces@))),
{
    let mut message = "Refreshed ".to_string();
    message.append(&decimal_text(interfaces.len() as u64));
    message.append(" network interface(s)");
    state.set_status(LogLevel::Info, &message, now_ms);
    let mut out: Fields = Vec::new();
    put(&mut out, "interfaces", list_json(interfaces));
    Json::Object(out)
}

/// An empty array.
pub open spec fn none_json() -> JsonModel {
    JsonModel::List(Seq::empty())
}

/// An empty array.
fn none() -> (r: Json)
    ensures
        r@ == none_json(),
{
    Json::List(Vec::new())
}

/// Tells that no device is known.
pub open spec fn devices_gone(w: state::WebModel) -> state::WebModel {
    state::emitted(w, state::event_json("devices"@, "devices"@, none_json()))
}

/// Tells that nothing is browsed.
pub open spec fn browsed_gone(w: state::WebModel) -> state::WebModel {
    state::emitted(w, state::event_json("browsed"@, "points"@, none_json()))
}

/// Tells of the configuration.
pub open spec fn config_told(w: state::WebModel) -> state::WebModel {
    state::emitted(
        w,
        state::event_json("config"@, "config"@, dto::redacted_json(w.shared.config)),
    )
}

/// The state with another configuration.
pub open spec fn with_config(w: state::WebModel, c: config::ConfigModel) -> state::WebModel {
    state::WebModel { shared: state::SharedModel { config: c, ..w.shared }, ..w }
}

/// The state with other configured points.
pub open spec fn with_points(
    w: state::WebModel,
    points: Seq<model::PointModel>,
) -> state::WebModel {
    with_config(w, config::ConfigModel { points, ..w.shared.config })
}

/// The choice of a protocol.
#[derive(Debug)]
pub struct ProtocolReq {
    pub id: String,
}

/// The state after a protocol was chosen: what was found with the last one is forgotten.
pub open spec fn protocol_chosen(w: state::WebModel, id: Seq<char>) -> state::WebModel {
    let c = config::ConfigModel { protocol: id, ..w.shared.config };
    let chosen = state::WebModel {
        shared: state::SharedModel {
            config: c,
            devices: Seq::empty(),
            browsed: Seq::empty(),
            ..w.shared
        },
        ..w
    };
    browsed_gone(devices_gone(config_told(chosen)))
}

/// What is said of a protocol that there is no adapter for.
pub open spec fn unknown_protocol(id: Seq<char>) -> ErrorModel {
    bad("unknown protocol '"@ + id + "'"@)
}

/// Chooses the protocol.
pub fn set_protocol(state: &mut WebState, req: ProtocolReq) -> (r: Result<Json, ApiError>)
    ensures
        old(state)@.shared.well_formed() ==> final(state)@.shared.well_formed(),
        old(state)@.caps.dom().contains(req.id@) ==> reply(r) == Ok::<JsonModel, ErrorModel>(
            ok_json(),
        ) && final(state)@ == protocol_chosen(old(state)@, req.id@),
        !old(state)@.caps.dom().contains(req.id@) ==> reply(r) == Err::<JsonModel, ErrorModel>(
            unknown_protocol(req.id@),
        ) && final(state)@ == old(state)@,
{
    if !state.caps.contains(&req.id) {
        let mut message = "unknown protocol '".to_string();
        message.append(&req.id);
        message.append("'");
        return Err(bad_request(&message));
    }
    state.shared.config.protocol = req.id;
    state.shared.devices = Vec::new();
    state.shared.browsed = Vec::new();
    assert(text::views(state.shared.devices@) =~= Seq::empty());
    assert(text::views(state.shared.browsed@) =~= Seq::empty());
    let config = redacted_config(&state.shared.config);
    state.emit(event("config", "config", config));
    state.emit(event("devices", "devices", none()));
    state.emit(event("browsed", "points", none()));
    Ok(ok())
}

/// What is left of a request once the configuration was saved.
#[derive(Debug, Clone, Copy, PartialEq, Eq, Structural)]
pub enum AfterSave {
    /// To tell of the configuration.
    Config,
    /// To tell of the points.
    Points,
    /// To note how many points are gone, and to tell of the points.
    Cleared(usize),
    /// To note that a browsed point was added, and to tell of the points.
    FromBrowse,
}

impl View for AfterSave {
    type V = AfterSave;

    open spec fn view(&self) -> AfterSave {
        *self
    }
}

/// What is said of points that are gone.
pub open spec fn cleared_message(removed: usize) -> Seq<char> {
    "Cleared "@ + text::decimal(removed as nat) + " configured point(s)."@
}

/// The state once a request was carried through.
pub open spec fn save_finished(
    w: state::WebModel,
    after: AfterSave,
    outcome: state::SaveModel,
    facts: Seq<model::FactsModel>,
    now_ms: i64,
) -> state::WebModel {
    let noted = state::saved(w, outcome, now_ms);
    if state::save_error(outcome) is Some {
        noted
    } else {
        match after {
            AfterSave::Config => config_told(noted),
            AfterSave::Points => state::points_told(noted, facts),
            AfterSave::Cleared(removed) => state::points_told(
                state::status_set(noted, LogLevel::Info, cleared_message(removed), now_ms),
                facts,
            ),
            AfterSave::FromBrowse => state::points_told(
                state::status_set(noted, LogLevel::Info, "Added point from browse"@, now_ms),
                facts,
            ),
        }
    }
}

/// The reply to a request that was carried through. One whose configuration was not saved is
/// refused with the reason.
pub open spec fn save_reply(after: AfterSave, outcome: state::SaveModel) -> Result<
    JsonModel,
    ErrorModel,
> {
    match state::save_error(outcome) {
        Some(message) => Err(bad(message)),
        None => match after {
            AfterSave::Cleared(removed) => Ok(
                JsonModel::Object(
                    map![
                        "ok"@ => JsonModel::Bool(true),
                        "removed"@ => JsonModel::Number(removed as int),
                    ],
                ),
            ),
            _ => Ok(ok_json()),
        },
    }
}

/// Carries a request through, once the configuration was saved or could not be.
pub fn finish_save(
    state: &mut WebState,
    after: AfterSave,
    outcome: SaveOutcome,
    facts: &Vec<PointFacts>,
    now_ms: i64,
) -> (r: Result<Json, ApiError>)
    requires
        old(state)@.shared.has_room(2),
        facts@.len() == old(state)@.shared.config.points.len(),
    ensures
        final(state)@ == save_finished(old(state)@, after, outcome@, text::views(facts@), now_ms),
        reply(r) == save_reply(after, outcome@),
        old(state)@.shared.well_formed() ==> final(state)@.shared.well_formed(),
{
    match state.save_config(outcome, now_ms) {
        Err(message) => return Err(bad_request(&message)),
        Ok(()) => {},
    }
    match after {
        AfterSave::Config => {
            let config = redacted_config(&state.shared.config);
            state.emit(event("config", "config", config));
            Ok(ok())
        },
        AfterSave::Points => {
            state.emit_points(facts);
            Ok(ok())
        },
        AfterSave::Cleared(removed) => {
            let mut message = "Cleared ".to_string();
            message.append(&decimal_text(removed as u64));
            message.append(" configured point(s).");
            state.set_status(LogLevel::Info, &message, now_ms);
            state.emit_points(facts);
            let mut out: Fields = Vec::new();
            put(&mut out, "ok", Json::Bool(true));
            put(&mut out, "removed", Json::Uint(removed as u64));
            Ok(Json::Object(out))
        },
        AfterSave::FromBrowse => {
            state.set_status(LogLevel::Info, "Added point from browse", now_ms);
            state.emit_points(facts);
            Ok(ok())
        },
    }
}

/// The connection settings as edited: texts by the adapter's field names.
#[derive(Debug)]
pub struct ConnectionReq {
    pub values: FormValues,
}

/// The adapter of the active protocol.
pub open spec fn active_caps(w: state::WebModel) -> Option<model::CapsModel> {
    if w.caps.dom().contains(w.shared.config.protocol) {
        Some(w.caps[w.shared.config.protocol])
    } else {
        None
    }
}

/// Replaces the connection settings of the active protocol.
pub fn set_connection(state: &mut WebState, req: ConnectionReq) -> (r: Result<AfterSave, ApiError>)
    ensures
        old(state)@.shared.well_formed() ==> final(state)@.shared.well_formed(),
        match active_caps(old(state)@) {
            None => reply(r) == Err::<AfterSave, ErrorModel>(bad("no protocol selected"@))
                && final(state)@ == old(state)@,
            Some(caps) => reply(r) == Ok::<AfterSave, ErrorModel>(AfterSave::Config)
                && final(state)@ == with_config(
                old(state)@,
                config::ConfigModel {
                    connections: old(state)@.shared.config.connections.insert(
                        old(state)@.shared.config.protocol,
                        built(caps.connection_fields, req.values@),
                    ),
                    ..old(state)@.shared.config
                },
            ),
        },
{
    let settings: Addressing = match state.caps.get(&state.shared.config.protocol) {
        None => return Err(bad_request("no protocol selected")),
        Some(caps) => build_addressing(&caps.connection_fields, &req.values),
    };
    state.shared.config.set_connection(settings);
    Ok(AfterSave::Config)
}

/// What a worker is to do.
#[derive(Debug)]
pub enum WorkerCommand {
    /// Find devices.
    Discover { connection: Addressing },
    /// List the points of a device.
    Browse { connection: Addressing, device: DiscoveredDevice },
    /// List the points of all devices and merge them into the configured ones.
    ScanAll { connection: Addressing, devices: Vec<DiscoveredDevice>, existing: Vec<PointConfig> },
    /// Read every point once.
    PollOnce { connection: Addressing, mqtt: MqttConfig, points: Vec<PointConfig> },
    /// Read and publish until asked to stop.
    Republish { connection: Addressing, mqtt: MqttConfig, points: Vec<PointConfig> },
}

/// What a [`WorkerCommand`] stands for.
pub enum CommandModel {
    Discover { connection: model::AddressingModel },
    Browse { connection: model::AddressingModel, device: model::DeviceModel },
    ScanAll {
        connection: model::AddressingModel,
        devices: Seq<model::DeviceModel>,
        existing: Seq<model::PointModel>,
    },
    PollOnce {
        connection: model::AddressingModel,
        mqtt: config::MqttModel,
        points: Seq<model::PointModel>,
    },
    Republish {
        connection: model::AddressingModel,
        mqtt: config::MqttModel,
        points: Seq<model::PointModel>,
    },
}

impl View for WorkerCommand {
    type V = CommandModel;

    open spec fn view(&self) -> CommandModel {
        match self {
            WorkerCommand::Discover { connection } => CommandModel::Discover {
                connection: connection@,
            },
            WorkerCommand::Browse { connection, device } => CommandModel::Browse {
                connection: connection@,
                device: device@,
            },
            WorkerCommand::ScanAll { connection, devices, existing } => CommandModel::ScanAll {
                connection: connection@,
                devices: text::views(devices@),
                existing: text::views(existing@),
            },
            WorkerCommand::PollOnce { connection, mqtt, points } => CommandModel::PollOnce {
                connection: connection@,
                mqtt: mqtt@,
                points: text::views(points@),
            },
            WorkerCommand::Republish { connection, mqtt, points } => CommandModel::Republish {
                connection: connection@,
                mqtt: mqtt@,
                points: text::views(points@),
            },
        }
    }
}

/// The state once discovery was started.
pub open spec fn discovering(w: state::WebModel, now_ms: i64) -> state::WebModel {
    let cleared = state::WebModel {
        shared: state::SharedModel { devices: Seq::empty(), ..w.shared },
        ..w
    };
    devices_gone(state::status_set(cleared, LogLevel::Info, "Discovering\u{2026}"@, now_ms))
}

/// Starts discovery. `has_adapter` says whether an adapter for the active protocol is there.
pub fn discover(state: &mut WebState, has_adapter: bool, now_ms: i64) -> (r: Result<
    WorkerCommand,
    ApiError,
>)
    requires
        old(state)@.shared.has_room(1),
    ensures
        old(state)@.shared.well_formed() ==> final(state)@.shared.well_formed(),
        has_adapter ==> final(state)@ == discovering(old(state)@, now_ms) && reply(r) == Ok::<
            CommandModel,
            ErrorModel,
        >((CommandModel::Discover { connection: config::connection_of(old(state)@.shared.config) })),
        !has_adapter ==> final(state)@ == old(state)@ && reply(r) == Err::<
            CommandModel,
            ErrorModel,
        >(bad("no protocol selected"@)),
{
    if !has_adapter {
        return Err(bad_request("no protocol selected"));
    }
    state.shared.devices = Vec::new();
    assert(text::views(state.shared.devices@) =~= Seq::empty());
    state.set_status(LogLevel::Info, "Discovering\u{2026}", now_ms);
    state.emit(event("devices", "devices", none()));
    Ok(WorkerCommand::Discover { connection: state.shared.config.connection() })
}

/// The state once browsing was started.
pub open spec fn browsing(w: state::WebModel, key: Seq<char>, now_ms: i64) -> state::WebModel {
    let cleared = state::WebModel {
        shared: state::SharedModel { browsed: Seq::empty(), ..w.shared },
        ..w
    };
    browsed_gone(
        state::status_set(cleared, LogLevel::Info, "Browsing "@ + key + "\u{2026}"@, now_ms),
    )
}

/// Starts browsing the discovered device at `index`.
pub fn browse_device(
    state: &mut WebState,
    index: usize,
    has_adapter: bool,
    now_ms: i64,
) -> (r: Result<WorkerCommand, ApiError>)
    requires
        old(state)@.shared.has_room(1),
    ensures
        old(state)@.shared.well_formed() ==> final(state)@.shared.well_formed(),
        ({
            let w = old(state)@;
            if index >= w.shared.devices.len() {
                final(state)@ == w && reply(r) == Err::<CommandModel, ErrorModel>(
                    missing("no such discovered device"@),
                )
            } else if !has_adapter {
                final(state)@ == w && reply(r) == Err::<CommandModel, ErrorModel>(
                    bad("no protocol selected"@),
                )
            } else {
                final(state)@ == browsing(w, w.shared.devices[index as int].key, now_ms) && reply(r)
                    == Ok::<CommandModel, ErrorModel>(
                    (CommandModel::Browse {
                        connection: config::connection_of(w.shared.config),
                        device: w.shared.devices[index as int],
                    }),
                )
            }
        }),
{
    if index >= state.shared.devices.len() {
        return Err(not_found("no such discovered device"));
    }
    let device = state.shared.devices[index].duplicate();
    if !has_adapter {
        return Err(bad_request("no protocol selected"));
    }
    state.shared.browsed = Vec::new();
    assert(text::views(state.shared.browsed@) =~= Seq::empty());
    let mut message = "Browsing ".to_string();
    message.append(&device.key);
    message.append("\u{2026}");
    state.set_status(LogLevel::Info, &message, now_ms);
    state.emit(event("browsed", "points", none()));
    Ok(WorkerCommand::Browse { connection: state.shared.config.connection(), device })
}

/// The state once a scan was started.
pub open spec fn scanning(w: state::WebModel, now_ms: i64) -> state::WebModel {
    let total = w.shared.devices.len() as usize;
    let begun = state::WebModel {
        shared: state::SharedModel { scan_progress: Some((0, total)), ..w.shared },
        ..w
    };
    state::emitted(
        state::status_set(begun, LogLevel::Info, "Scanning all objects\u{2026}"@, now_ms),
        state::progress_event(0, total),
    )
}

/// Starts a scan of all discovered devices.
pub fn scan_all(state: &mut WebState, has_adapter: bool, now_ms: i64) -> (r: Result<
    WorkerCommand,
    ApiError,
>)
    requires
        old(state)@.shared.has_room(1),
    ensures
        old(state)@.shared.well_formed() ==> final(state)@.shared.well_formed(),
        ({
            let w = old(state)@;
            if w.shared.devices.len() == 0 {
                final(state)@ == state::status_set(
                    w,
                    LogLevel::Warning,
                    "Discover devices before scan-all"@,
                    now_ms,
                ) && reply(r) == Err::<CommandModel, ErrorModel>(
                    bad("discover devices before scan-all"@),
                )
            } else if !has_adapter {
                final(state)@ == w && reply(r) == Err::<CommandModel, ErrorModel>(
                    bad("no protocol selected"@),
                )
            } else {
                final(state)@ == scanning(w, now_ms) && reply(r) == Ok::<CommandModel, ErrorModel>(
                    (CommandModel::ScanAll {
                        connection: config::connection_of(w.shared.config),
                        devices: w.shared.devices,
                        existing: w.shared.config.points,
                    }),
                )
            }
        }),
{
    if state.shared.devices.len() == 0 {
        state.set_status(LogLevel::Warning, "Discover devices before scan-all", now_ms);
        return Err(bad_request("discover devices before scan-all"));
    }
    if !has_adapter {
        return Err(bad_request("no protocol selected"));
    }
    let devices = duplicate_all(&state.shared.devices);
    let existing = duplicate_all(&state.shared.config.points);
    let total: usize = state.shared.devices.len();
    state.shared.scan_progress = Some((0, total));
    state.set_status(LogLevel::Info, "Scanning all objects\u{2026}", now_ms);
    state.emit(progress(0, total));
    Ok(WorkerCommand::ScanAll { connection: state.shared.config.connection(), devices, existing })
}

/// Reads every point once.
pub fn poll_once(state: &mut WebState, has_adapter: bool, now_ms: i64) -> (r: Result<
    WorkerCommand,
    ApiError,
>)
    requires
        old(state)@.shared.has_room(1),
    ensures
        old(state)@.shared.well_formed() ==> final(state)@.shared.well_formed(),
        ({
            let w = old(state)@;
            if has_adapter {
                final(state)@ == state::status_set(
                    w,
                    LogLevel::Info,
                    "Polling once\u{2026}"@,
                    now_ms,
                ) && reply(r) == Ok::<CommandModel, ErrorModel>(
                    (CommandModel::PollOnce {
                        connection: config::connection_of(w.shared.config),
                        mqtt: w.shared.config.mqtt,
                        points: w.shared.config.points,
                    }),
                )
            } else {
                final(state)@ == w && reply(r) == Err::<CommandModel, ErrorModel>(
                    bad("no protocol selected"@),
                )
            }
        }),
{
    if !has_adapter {
        return Err(bad_request("no protocol selected"));
    }
    let command = WorkerCommand::PollOnce {
        connection: state.shared.config.connection(),
        mqtt: state.shared.config.mqtt.duplicate(),
        points: duplicate_all(&state.shared.config.points),
    };
    state.set_status(LogLevel::Info, "Polling once\u{2026}", now_ms);
    Ok(command)
}

/// A point as edited: a new one, or another form of the one at `index`.
#[derive(Debug)]
pub struct PointReq {
    pub index: Option<usize>,
    pub enabled: bool,
    pub device_key: String,
    pub tag_path: String,
    pub poll_interval_secs: u64,
    /// Texts by the adapter's field names.
    pub addressing: FormValues,
}

/// Whether a point is enabled where the request does not say.
pub fn default_enabled() -> (r: bool)
    ensures
        r,
{
    true
}

/// How often a point is read where the request does not say.
pub fn default_poll_interval() -> (r: u64)
    ensures
        r == 10,
{
    10
}

/// The point that a request describes.
pub open spec fn requested_point(caps: model::CapsModel, req: PointReq) -> model::PointModel {
    model::PointModel {
        enabled: req.enabled,
        device_key: text::trimmed(req.device_key@),
        addressing: built(caps.addressing_fields, req.addressing@),
        tag_path: text::trimmed(req.tag_path@),
        poll_interval_secs: envcfg::at_least_one(req.poll_interval_secs),
    }
}

/// Adds a point, or replaces the one at the request's index.
pub fn save_point(state: &mut WebState, req: PointReq) -> (r: Result<AfterSave, ApiError>)
    ensures
        old(state)@.shared.well_formed() ==> final(state)@.shared.well_formed(),
        ({
            let w = old(state)@;
            let points = w.shared.config.points;
            match active_caps(w) {
                None => final(state)@ == w && reply(r) == Err::<AfterSave, ErrorModel>(
                    bad("select a protocol first"@),
                ),
                Some(caps) => match req.index {
                    None => final(state)@ == with_points(
                        w,
                        points.push(requested_point(caps, req)),
                    ) && reply(r) == Ok::<AfterSave, ErrorModel>(AfterSave::Points),
                    Some(i) => if i < points.len() {
                        final(state)@ == with_points(
                            w,
                            points.update(i as int, requested_point(caps, req)),
                        ) && reply(r) == Ok::<AfterSave, ErrorModel>(AfterSave::Points)
                    } else {
                        final(state)@ == w && reply(r) == Err::<AfterSave, ErrorModel>(
                            missing("no such point"@),
                        )
                    },
                },
            }
        }),
{
    let addressing: Addressing = match state.caps.get(&state.shared.config.protocol) {
        None => return Err(bad_request("select a protocol first")),
        Some(caps) => build_addressing(&caps.addressing_fields, &req.addressing),
    };
    let point = PointConfig {
        enabled: req.enabled,
        device_key: trim(&req.device_key).to_string(),
        addressing,
        tag_path: trim(&req.tag_path).to_string(),
        poll_interval_secs: if req.poll_interval_secs < 1 {
            1
        } else {
            req.poll_interval_secs
        },
    };
    let ghost before = state.shared.config.points@;
    match req.index {
        Some(index) => {
            if index >= state.shared.config.points.len() {
                return Err(not_found("no such point"));
            }
            state.shared.config.points[index] = point;
            assert(text::views(state.shared.config.points@) =~= text::views(before).update(
                index as int,
                point@,
            ));
        },
        None => {
            state.shared.config.points.push(point);
            assert(text::views(state.shared.config.points@) =~= text::views(before).push(point@));
        },
    }
    Ok(AfterSave::Points)
}

/// Whether a point is to be enabled.
#[derive(Debug)]
pub struct ToggleReq {
    pub enabled: bool,
}

/// Enables or disables the point at `index`.
pub fn toggle_point(state: &mut WebState, index: usize, req: ToggleReq) -> (r: Result<
    AfterSave,
    ApiError,
>)
    ensures
        old(state)@.shared.well_formed() ==> final(state)@.shared.well_formed(),
        ({
            let w = old(state)@;
            let points = w.shared.config.points;
            if index < points.len() {
                final(state)@ == with_points(
                    w,
                    points.update(
                        index as int,
                        model::PointModel { enabled: req.enabled, ..points[index as int] },
                    ),
                ) && reply(r) == Ok::<AfterSave, ErrorModel>(AfterSave::Points)
            } else {
                final(state)@ == w && reply(r) == Err::<AfterSave, ErrorModel>(
                    missing("no such point"@),
                )
            }
        }),
{
    if index >= state.shared.config.points.len() {
        return Err(not_found("no such point"));
    }
    let ghost before = state.shared.config.points@;
    let mut point = state.shared.config.points[index].duplicate();
    point.enabled = req.enabled;
    state.shared.config.points[index] = point;
    assert(text::views(state.shared.config.points@) =~= text::views(before).update(
        index as int,
        point@,
    ));
    Ok(AfterSave::Points)
}

/// Removes the point at `index`.
pub fn delete_point(state: &mut WebState, index: usize) -> (r: Result<AfterSave, ApiError>)
    ensures
        old(state)@.shared.well_formed() ==> final(state)@.shared.well_formed(),
        ({
            let w = old(state)@;
            let points = w.shared.config.points;
            if index < points.len() {
                final(state)@ == with_points(w, points.remove(index as int)) && reply(r) == Ok::<
                    AfterSave,
                    ErrorModel,
                >(AfterSave::Points)
            } else {
                final(state)@ == w && reply(r) == Err::<AfterSave, ErrorModel>(
                    missing("no such point"@),
                )
            }
        }),
{
    if index >= state.shared.config.points.len() {
        return Err(not_found("no such point"));
    }
    let ghost before = state.shared.config.points@;
    let _gone = state.shared.config.points.remove(index);
    assert(text::views(state.shared.config.points@) =~= text::views(before).remove(index as int));
    Ok(AfterSave::Points)
}

/// Removes every point and forgets every status.
pub fn clear_points(state: &mut WebState) -> (r: AfterSave)
    ensures
        old(state)@.shared.well_formed() ==> final(state)@.shared.well_formed(),
        ({
            let w = with_points(old(state)@, Seq::empty());
            final(state)@ == (state::WebModel {
                shared: state::SharedModel { statuses: Map::empty(), ..w.shared },
                ..w
            })
        }),
        r == AfterSave::Cleared(old(state)@.shared.config.points.len() as usize),
{
    let removed: usize = state.shared.config.points.len();
    state.shared.config.points = Vec::new();
    state.shared.statuses.clear();
    assert(text::views(state.shared.config.points@) =~= Seq::empty());
    AfterSave::Cleared(removed)
}

/// The point that is made of a browsed one.
pub open spec fn point_of_browsed(b: model::BrowsedModel) -> model::PointModel {
    model::PointModel {
        enabled: true,
        device_key: b.device_key,
        addressing: b.addressing,
        tag_path: b.suggested_tag_path,
        poll_interval_secs: 10,
    }
}

/// The point that is made of the browsed one at `index`.
pub fn browsed_point(state: &WebState, index: usize) -> (r: Result<PointConfig, ApiError>)
    ensures
        reply(r) == if index < state@.shared.browsed.len() {
            Ok::<model::PointModel, ErrorModel>(
                point_of_browsed(state@.shared.browsed[index as int]),
            )
        } else {
            Err(missing("no such browsed point"@))
        },
{
    if index >= state.shared.browsed.len() {
        return Err(not_found("no such browsed point"));
    }
    let found = &state.shared.browsed[index];
    Ok(
        PointConfig {
            enabled: true,
            device_key: found.device_key.clone(),
            addressing: found.addressing.duplicate(),
            tag_path: found.suggested_tag_path.clone(),
            poll_interval_secs: 10,
        },
    )
}

/// Whether `i` is the first place where `identity` stands.
pub open spec fn first_at(
    identities: Seq<model::IdentityModel>,
    identity: model::IdentityModel,
    i: int,
) -> bool {
    &&& 0 <= i < identities.len()
    &&& identities[i] == identity
    &&& forall|j: int| 0 <= j < i ==> identities[j] != identity
}

/// The points with one more, which takes the place of the first one that has its identity.
pub open spec fn upserted(
    points: Seq<model::PointModel>,
    identities: Seq<model::IdentityModel>,
    point: model::PointModel,
    identity: model::IdentityModel,
) -> Seq<model::PointModel> {
    if exists|i: int| first_at(identities, identity, i) {
        points.update(choose|i: int| first_at(identities, identity, i), point)
    } else {
        points.push(point)
    }
}

/// Adds a point, or lets it take the place of the one that has its identity. `identities` are
/// those of the configured points.
pub fn add_browsed_point(
    state: &mut WebState,
    point: PointConfig,
    identity: &PointIdentity,
    identities: &Vec<PointIdentity>,
) -> (r: AfterSave)
    requires
        identities@.len() == old(state)@.shared.config.points.len(),
    ensures
        old(state)@.shared.well_formed() ==> final(state)@.shared.well_formed(),
        final(state)@ == with_points(
            old(state)@,
            upserted(
                old(state)@.shared.config.points,
                text::views(identities@),
                point@,
                identity@,
            ),
        ),
        r == AfterSave::FromBrowse,
{
    let ghost ids = text::views(identities@);
    let ghost before = state.shared.config.points@;
    let ghost p = point@;
    let mut i: usize = 0;
    while i < identities.len() && !identities[i].same(identity)
        invariant
            i <= identities@.len(),
            ids == text::views(identities@),
            forall|j: int| 0 <= j < i ==> ids[j] != identity@,
        decreases identities@.len() - i,
    {
        i = i + 1;
    }
    if i < identities.len() {
        assert(first_at(ids, identity@, i as int));
        proof {
            let k = choose|k: int| first_at(ids, identity@, k);
            assert(first_at(ids, identity@, k));
            assert(k == i);
        }
        state.shared.config.points[i] = point;
        assert(text::views(state.shared.config.points@) =~= text::views(before).update(i as int, p));
    } else {
        assert forall|k: int| !first_at(ids, identity@, k) by {}
        state.shared.config.points.push(point);
        assert(text::views(state.shared.config.points@) =~= text::views(before).push(p));
    }
    AfterSave::FromBrowse
}

/// The settings as edited.
#[derive(Debug)]
pub struct SettingsReq {
    pub mqtt: MqttSettingsReq,
    pub ui: Option<UiSettingsReq>,
}

/// The settings of the interface as edited.
#[derive(Debug)]
pub struct UiSettingsReq {
    pub theme: String,
}

/// The broker settings as edited. A secret that is not sent is kept, an empty one is cleared, and
/// any other replaces the stored one.
#[derive(Debug)]
pub struct MqttSettingsReq {
    pub host: String,
    pub port: u16,
    pub use_tls: bool,
    pub client_id: String,
    pub topic_prefix: String,
    pub health_topic: String,
    pub username: Option<String>,
    pub password: Option<String>,
    pub ca_cert_path: Option<String>,
    pub client_cert_path: Option<String>,
    pub client_key_path: Option<String>,
    pub client_key_passphrase: Option<String>,
    pub remember_secrets: bool,
    pub retain: bool,
    pub keep_alive_secs: u64,
    pub payload_format: PayloadFormat,
    pub device_topic_prefix: String,
    pub autostart: bool,
}

/// A text without surrounding white space, where more than white space was sent.
pub open spec fn filled(value: Option<Seq<char>>) -> Option<Seq<char>> {
    match value {
        Some(v) => if text::trimmed(v).len() > 0 {
            Some(text::trimmed(v))
        } else {
            None
        },
        None => None,
    }
}

/// A text without surrounding white space, where more than white space was sent.
pub fn non_empty(value: Option<String>) -> (r: Option<String>)
    ensures
        text::opt(r) == filled(text::opt(value)),
{
    match value {
        Some(v) => {
            let trimmed = trim(&v);
            if trimmed.is_empty() {
                None
            } else {
                Some(trimmed.to_string())
            }
        },
        None => None,
    }
}

/// A secret after an update: none keeps it, an empty one clears it, any other replaces it.
pub open spec fn secret_after(
    current: Option<Seq<char>>,
    update: Option<Seq<char>>,
) -> Option<Seq<char>> {
    match update {
        None => current,
        Some(v) => if v.len() == 0 {
            None
        } else {
            Some(v)
        },
    }
}

/// Updates a secret that is only ever written.
pub fn apply_secret(current: &mut Option<String>, update: Option<String>)
    ensures
        text::opt(*final(current)) == secret_after(text::opt(*old(current)), text::opt(update)),
{
    match update {
        Some(value) => {
            *current = if value.as_str().is_empty() {
                None
            } else {
                Some(value)
            };
        },
        None => {},
    }
}

/// The broker settings after a request. What a request cannot name stays as it was.
pub open spec fn mqtt_after(m: config::MqttModel, req: MqttSettingsReq) -> config::MqttModel {
    config::MqttModel {
        host: req.host@,
        port: req.port,
        use_tls: req.use_tls,
        client_id: req.client_id@,
        topic_prefix: req.topic_prefix@,
        health_topic: req.health_topic@,
        username: filled(text::opt(req.username)),
        password: secret_after(m.password, text::opt(req.password)),
        password_env: m.password_env,
        ca_cert_path: filled(text::opt(req.ca_cert_path)),
        client_cert_path: filled(text::opt(req.client_cert_path)),
        client_key_path: filled(text::opt(req.client_key_path)),
        client_key_passphrase: secret_after(
            m.client_key_passphrase,
            text::opt(req.client_key_passphrase),
        ),
        remember_secrets: req.remember_secrets,
        retain: req.retain,
        keep_alive_secs: envcfg::at_least_one(req.keep_alive_secs),
        payload_format: req.payload_format,
        device_topic_prefix: req.device_topic_prefix@,
        autostart: req.autostart,
    }
}

/// The configuration after a request.
pub open spec fn config_after(c: config::ConfigModel, req: SettingsReq) -> config::ConfigModel {
    config::ConfigModel {
        mqtt: mqtt_after(c.mqtt, req.mqtt),
        theme: match req.ui {
            Some(ui) => ui.theme@,
            None => c.theme,
        },
        ..c
    }
}

/// Replaces the settings.
pub fn put_settings(state: &mut WebState, req: SettingsReq) -> (r: AfterSave)
    ensures
        old(state)@.shared.well_formed() ==> final(state)@.shared.well_formed(),
        final(state)@ == with_config(
            old(state)@,
            config_after(old(state)@.shared.config, req),
        ),
        r == AfterSave::Config,
{
    let SettingsReq { mqtt: new, ui } = req;
    let mut password = state.shared.config.mqtt.password.take();
    apply_secret(&mut password, new.password);
    let mut passphrase = state.shared.config.mqtt.client_key_passphrase.take();
    apply_secret(&mut passphrase, new.client_key_passphrase);
    let password_env = state.shared.config.mqtt.password_env.take();
    state.shared.config.mqtt = MqttConfig {
        host: new.host,
        port: new.port,
        use_tls: new.use_tls,
        client_id: new.client_id,
        topic_prefix: new.topic_prefix,
        health_topic: new.health_topic,
        username: non_empty(new.username),
        password,
        password_env,
        ca_cert_path: non_empty(new.ca_cert_path),
        client_cert_path: non_empty(new.client_cert_path),
        client_key_path: non_empty(new.client_key_path),
        client_key_passphrase: passphrase,
        remember_secrets: new.remember_secrets,
        retain: new.retain,
        keep_alive_secs: if new.keep_alive_secs < 1 {
            1
        } else {
            new.keep_alive_secs
        },
        payload_format: new.payload_format,
        device_topic_prefix: new.device_topic_prefix,
        autostart: new.autostart,
    };
    match ui {
        Some(ui) => state.shared.config.theme = ui.theme,
        None => {},
    }
    AfterSave::Config
}

/// Whether a republisher is at work.
pub open spec fn at_work(l: model::LifecycleModel) -> bool {
    l is Starting || l is Running || l is Stopping
}

/// The state once the republisher was started.
pub open spec fn republishing(w: state::WebModel, now_ms: i64) -> state::WebModel {
    let begun = state::WebModel {
        shared: state::SharedModel { stop_flag: Some(false), published_total: 0, ..w.shared },
        ..w
    };
    state::status_set(begun, LogLevel::Info, "Republisher starting\u{2026}"@, now_ms)
}

/// What is said of a configuration that is not valid.
pub open spec fn cannot_start(error: Seq<char>) -> Seq<char> {
    "Cannot start: "@ + error
}

/// Starts the republisher. `invalid` says what is wrong with the configuration, if anything is.
pub fn start_republisher(
    state: &mut WebState,
    invalid: Option<String>,
    has_adapter: bool,
    now_ms: i64,
) -> (r: Result<WorkerCommand, ApiError>)
    requires
        old(state)@.shared.has_room(1),
    ensures
        old(state)@.shared.well_formed() ==> final(state)@.shared.well_formed(),
        ({
            let w = old(state)@;
            if at_work(w.shared.lifecycle) {
                final(state)@ == w && reply(r) == Err::<CommandModel, ErrorModel>(
                    conflicting("republisher is already running"@),
                )
            } else {
                match text::opt(invalid) {
                    Some(e) => final(state)@ == state::status_set(
                        w,
                        LogLevel::Error,
                        cannot_start(e),
                        now_ms,
                    ) && reply(r) == Err::<CommandModel, ErrorModel>(bad(cannot_start(e))),
                    None => if has_adapter {
                        final(state)@ == republishing(w, now_ms) && reply(r) == Ok::<
                            CommandModel,
                            ErrorModel,
                        >(
                            (CommandModel::Republish {
                                connection: config::connection_of(w.shared.config),
                                mqtt: w.shared.config.mqtt,
                                points: w.shared.config.points,
                            }),
                        )
                    } else {
                        final(state)@ == w && reply(r) == Err::<CommandModel, ErrorModel>(
                            bad("no protocol selected"@),
                        )
                    },
                }
            }
        }),
{
    let running: bool = match &state.shared.lifecycle {
        RepublisherLifecycle::Starting => true,
        RepublisherLifecycle::Running => true,
        RepublisherLifecycle::Stopping => true,
        _ => false,
    };
    if running {
        return Err(conflict("republisher is already running"));
    }
    match invalid {
        Some(error) => {
            let mut message = "Cannot start: ".to_string();
            message.append(&error);
            state.set_status(LogLevel::Error, &message, now_ms);
            return Err(bad_request(&message));
        },
        None => {},
    }
    if !has_adapter {
        return Err(bad_request("no protocol selected"));
    }
    state.shared.stop_flag = Some(false);
    state.shared.published_total = 0;
    let command = WorkerCommand::Republish {
        connection: state.shared.config.connection(),
        mqtt: state.shared.config.mqtt.duplicate(),
        points: duplicate_all(&state.shared.config.points),
    };
    state.set_status(LogLevel::Info, "Republisher starting\u{2026}", now_ms);
    Ok(command)
}

/// The state with the republisher asked to stop, where one was started.
pub open spec fn stop_asked(w: state::WebModel) -> state::WebModel {
    state::WebModel {
        shared: state::SharedModel {
            stop_flag: match w.shared.stop_flag {
                Some(_) => Some(true),
                None => None,
            },
            ..w.shared
        },
        ..w
    }
}

/// Asks the republisher to stop. Where none was started, nothing changes.
pub fn stop_republisher(state: &mut WebState, now_ms: i64) -> (r: Json)
    requires
        old(state)@.shared.has_room(1),
    ensures
        old(state)@.shared.well_formed() ==> final(state)@.shared.well_formed(),
        r@ == ok_json(),
        final(state)@ == if old(state)@.shared.stop_flag is Some {
            state::status_set(
                stop_asked(old(state)@),
                LogLevel::Info,
                "Stopping republisher\u{2026}"@,
                now_ms,
            )
        } else {
            old(state)@
        },
{
    if state.shared.stop_flag.is_some() {
        state.shared.stop_flag = Some(true);
        state.set_status(LogLevel::Info, "Stopping republisher\u{2026}", now_ms);
    }
    ok()
}

/// A login.
#[derive(Debug)]
pub struct LoginReq {
    pub password: String,
}

/// The document of a request's session.
pub open spec fn session_json(auth_required: bool, authenticated: bool) -> JsonModel {
    JsonModel::Object(
        map![
            "auth_required"@ => JsonModel::Bool(auth_required),
            "authenticated"@ => JsonModel::Bool(authenticated),
        ],
    )
}

/// Whether a session is asked for, and whether the request has one. `cookie` is its cookie header.
pub fn session_info(auth: &mut Auth, cookie: Option<&str>, now: u64) -> (r: Json)
    ensures
        ({
            let a = old(auth)@;
            let header = text::opt(cookie);
            r@ == session_json(a.required, !a.required || auth::holds_session(a, header, now))
                && final(auth)@ == if a.required {
                auth::session_checked(a, header, now)
            } else {
                a
            }
        }),
{
    let required: bool = auth.asks_for_session();
    let authenticated: bool = !required || auth.check_cookie(cookie, now);
    let mut out: Fields = Vec::new();
    put(&mut out, "auth_required", Json::Bool(required));
    put(&mut out, "authenticated", Json::Bool(authenticated));
    Json::Object(out)
}

/// The reply to a login or a logout: the HTTP status, the cookie to set, and the body.
#[derive(Debug)]
pub struct SessionReply {
    pub status: u16,
    pub cookie: Option<String>,
    pub body: Json,
}

/// What a [`SessionReply`] stands for.
pub struct SessionModel {
    pub status: u16,
    pub cookie: Option<Seq<char>>,
    pub body: JsonModel,
}

impl View for SessionReply {
    type V = SessionModel;

    open spec fn view(&self) -> SessionModel {
        SessionModel { status: self.status, cookie: text::opt(self.cookie), body: self.body@ }
    }
}

/// The reply to a login that is not needed.
pub open spec fn login_needless() -> SessionModel {
    SessionModel { status: 200, cookie: None, body: ok_json() }
}

/// The reply to an address that has used up its failed logins.
pub open spec fn login_throttled() -> SessionModel {
    SessionModel {
        status: 429,
        cookie: None,
        body: error_json("too many attempts; retry later"@),
    }
}

/// The reply to a wrong password.
pub open spec fn login_refused() -> SessionModel {
    SessionModel { status: 401, cookie: None, body: error_json("invalid password"@) }
}

/// The reply to a login that opened a session.
pub open spec fn login_granted(a: auth::AuthModel, token: Seq<char>) -> SessionModel {
    SessionModel {
        status: 200,
        cookie: Some(auth::session_cookie_text(token, a.cookie_secure)),
        body: ok_json(),
    }
}

/// Ends a login once the password was checked: `token` is that of the session to open, or none
/// where the password was wrong.
pub fn settle_login(auth: &mut Auth, ip: ClientIp, token: Option<String>, now: u64) -> (r:
    SessionReply)
    requires
        now + auth::SESSION_TTL <= u64::MAX,
    ensures
        match text::opt(token) {
            None => r@ == login_refused() && final(auth)@ == auth::failure_recorded(
                old(auth)@,
                ip,
                now,
            ),
            Some(t) => r@ == login_granted(old(auth)@, t) && final(auth)@ == auth::session_opened(
                old(auth)@,
                t,
                now,
            ),
        },
{
    match token {
        None => {
            auth.record_failure(ip, now);
            SessionReply { status: 401, cookie: None, body: error_body("invalid password") }
        },
        Some(token) => {
            auth.open_session(&token, now);
            let cookie = auth.session_cookie(&token);
            SessionReply { status: 200, cookie: Some(cookie), body: ok() }
        },
    }
}

/// Logs in from an address: with the right password a session with a random token is opened; too
/// many wrong ones of late turn the address away before the password is looked at.
pub fn login(auth: &mut Auth, ip: ClientIp, req: &LoginReq, now: u64) -> (r: SessionReply)
    requires
        now + auth::SESSION_TTL <= u64::MAX,
    ensures
        ({
            let a = old(auth)@;
            let b = auth::looked_up(a, ip, now);
            if !a.required {
                r@ == login_needless() && final(auth)@ == a
            } else if auth::is_throttled(a, ip, now) {
                r@ == login_throttled() && final(auth)@ == b
            } else if !auth::is_password(a, req.password@) {
                r@ == login_refused() && final(auth)@ == auth::failure_recorded(b, ip, now)
            } else {
                exists|token: Seq<char>|
                    #![trigger auth::session_opened(b, token, now)]
                    token.len() == 48 && auth::alphanumeric(token) && r@ == login_granted(b, token)
                        && final(auth)@ == auth::session_opened(b, token, now)
            }
        }),
{
    if !auth.asks_for_session() {
        return SessionReply { status: 200, cookie: None, body: ok() };
    }
    if auth.throttled(ip, now) {
        return SessionReply {
            status: 429,
            cookie: None,
            body: error_body("too many attempts; retry later"),
        };
    }
    let token: Option<String> = if auth.verify_password(&req.password) {
        Some(new_token())
    } else {
        None
    };
    settle_login(auth, ip, token, now)
}

/// Logs out: the session is closed, and the cookie taken back.
pub fn logout(auth: &mut Auth, cookie: Option<&str>) -> (r: SessionReply)
    ensures
        r@ == (SessionModel {
            status: 200,
            cookie: Some(auth::clear_cookie_text(old(auth)@.cookie_secure)),
            body: ok_json(),
        }),
        final(auth)@ == match auth::presented(text::opt(cookie)) {
            Some(token) => auth::session_closed(old(auth)@, token),
            None => old(auth)@,
        },
{
    match auth::presented_token(cookie) {
        Some(token) => auth.remove_session(token),
        None => {},
    }
    let cleared = auth.clear_cookie();
    SessionReply { status: 200, cookie: Some(cleared), body: ok() }
}

/// A reply is a success exactly when the configuration was saved.
pub proof fn law_success_means_saved(after: AfterSave, outcome: state::SaveModel)
    ensures
        save_reply(after, outcome) is Ok <==> outcome is Saved,
        save_reply(after, outcome) matches Err(e) ==> e.status == 400,
{
}

/// A secret that is not sent is kept, an empty one is cleared, and any other is taken over.
pub proof fn law_secret_update(current: Option<Seq<char>>, value: Seq<char>)
    ensures
        secret_after(current, None) == current,
        secret_after(current, Some(Seq::empty())) is None,
        value.len() > 0 ==> secret_after(current, Some(value)) == Some(value),
{
}

/// Whatever is sent, a point is read at most once a second, and the broker's keep-alive is at least
/// a second.
pub proof fn law_intervals_are_positive(
    caps: model::CapsModel,
    point: PointReq,
    c: config::ConfigModel,
    settings: SettingsReq,
)
    ensures
        requested_point(caps, point).poll_interval_secs >= 1,
        config_after(c, settings).mqtt.keep_alive_secs >= 1,
{
}

/// A form fills every field of the adapter and no other.
pub proof fn law_form_fills_fields(
    specs: Seq<model::FieldModel>,
    values: Map<Seq<char>, Seq<char>>,
    key: Seq<char>,
)
    ensures
        built(specs, values).dom().contains(key) <==> exists|i: int|
            0 <= i < specs.len() && (#[trigger] specs[i]).key == key,
    decreases specs.len(),
{
    if specs.len() > 0 {
        let rest = specs.drop_last();
        law_form_fills_fields(rest, values, key);
        if built(specs, values).dom().contains(key) {
            if key == specs.last().key {
                assert(specs[specs.len() - 1].key == key);
            } else {
                let i = choose|i: int| 0 <= i < rest.len() && (#[trigger] rest[i]).key == key;
                assert(specs[i].key == key);
            }
        }
        if exists|i: int| 0 <= i < specs.len() && (#[trigger] specs[i]).key == key {
            let i = choose|i: int| 0 <= i < specs.len() && (#[trigger] specs[i]).key == key;
            if i < rest.len() {
                assert(rest[i].key == key);
            }
        }
    }
}

/// Choosing a protocol forgets what was found with the last one, and keeps the points and the
/// connection settings of every protocol.
pub proof fn law_protocol_switch(w: state::WebModel, id: Seq<char>)
    ensures
        ({
            let after = protocol_chosen(w, id).shared;
            &&& after.config.protocol == id
            &&& after.devices.len() == 0
            &&& after.browsed.len() == 0
            &&& after.config.points == w.shared.config.points
            &&& after.config.connections == w.shared.config.connections
            &&& after.config.mqtt == w.shared.config.mqtt
        }),
{
}

/// The identities of the points after one was added from a browse.
pub open spec fn upserted_identities(
    identities: Seq<model::IdentityModel>,
    identity: model::IdentityModel,
) -> Seq<model::IdentityModel> {
    if exists|i: int| first_at(identities, identity, i) {
        identities
    } else {
        identities.push(identity)
    }
}

/// A point that is added from a browse is there afterwards, the other points are as they were, and
/// there is one more of them only where none had its identity.
pub proof fn law_upsert(
    points: Seq<model::PointModel>,
    identities: Seq<model::IdentityModel>,
    point: model::PointModel,
    identity: model::IdentityModel,
)
    requires
        points.len() == identities.len(),
    ensures
        ({
            let after = upserted(points, identities, point, identity);
            &&& forall|i: int|
                0 <= i < points.len() && identities[i] != identity ==> after[i] == #[trigger] points[i]
            &&& after.contains(point)
            &&& after.len() == points.len() + if identities.contains(identity) {
                0int
            } else {
                1
            }
        }),
{
    let after = upserted(points, identities, point, identity);
    if identities.contains(identity) {
        let j = choose|j: int| 0 <= j < identities.len() && identities[j] == identity;
        let k = lemma_first_exists(identities, identity, j);
        assert(first_at(identities, identity, k));
        let c = choose|c: int| first_at(identities, identity, c);
        assert(first_at(identities, identity, c));
        assert(after[c] == point);
    } else {
        assert forall|c: int| !first_at(identities, identity, c) by {
            if first_at(identities, identity, c) {
                assert(identities.contains(identities[c]));
            }
        }
        assert(after[points.len() as int] == point);
    }
}

/// Where an identity stands somewhere, it stands somewhere first.
proof fn lemma_first_exists(
    identities: Seq<model::IdentityModel>,
    identity: model::IdentityModel,
    j: int,
) -> (k: int)
    requires
        0 <= j < identities.len(),
        identities[j] == identity,
    ensures
        first_at(identities, identity, k),
    decreases j,
{
    if exists|i: int| 0 <= i < j && #[trigger] identities[i] == identity {
        let i = choose|i: int| 0 <= i < j && #[trigger] identities[i] == identity;
        lemma_first_exists(identities, identity, i)
    } else {
        j
    }
}

/// Adding the same browsed point twice is the same as adding it once.
pub proof fn law_upsert_twice(
    points: Seq<model::PointModel>,
    identities: Seq<model::IdentityModel>,
    point: model::PointModel,
    identity: model::IdentityModel,
)
    requires
        points.len() == identities.len(),
    ensures
        upserted(
            upserted(points, identities, point, identity),
            upserted_identities(identities, identity),
            point,
            identity,
        ) == upserted(points, identities, point, identity),
{
    let once = upserted(points, identities, point, identity);
    let ids = upserted_identities(identities, identity);
    if exists|i: int| first_at(identities, identity, i) {
        let k = choose|k: int| first_at(identities, identity, k);
        assert(once.update(k, point) =~= once);
    } else {
        let n = identities.len() as int;
        assert(ids[n] == identity);
        let k = lemma_first_exists(ids, identity, n);
        let c = choose|c: int| first_at(ids, identity, c);
        assert(first_at(ids, identity, c));
        if c < n {
            assert(first_at(identities, identity, c)) by {
                assert(ids[c] == identities[c]);
                assert forall|j: int| 0 <= j < c implies identities[j] != identity by {
                    assert(ids[j] == identities[j]);
                }
            }
        }
        assert(c == n);
        assert(once.update(c, point) =~= once);
    }
}

/// While a republisher is reported at work no second one is started, and once it is reported
/// stopped or failed one can be.
pub proof fn law_one_republisher(w: state::WebModel, l: model::LifecycleModel, now_ms: i64)
    ensures
        at_work(
            state::applied(w, state::WorkerModel::Lifecycle(l), now_ms).shared.lifecycle,
        ) <==> !(l is Stopped || l is Failed),
{
}

/// A session is recognised in the requests of the browser that was given its cookie for as long as
/// it lasts, and no longer; after a logout with that cookie it is not.
pub proof fn law_login_admits(a: auth::AuthModel, token: Seq<char>, now: u64, t: u64)
    requires
        auth::cookie_safe(token),
        now + auth::SESSION_TTL <= u64::MAX,
    ensures
        ({
            let header = Some(auth::SESSION_COOKIE@ + "="@ + token);
            let opened = auth::session_opened(a, token, now);
            &&& auth::holds_session(opened, header, t) <==> t < now + auth::SESSION_TTL
            &&& auth::presented(header) == Some(token)
            &&& !auth::holds_session(auth::session_closed(opened, token), header, t)
        }),
{
    auth::law_cookie_round_trip(token, false);
    auth::law_session_lasts(a, token, now, t);
    auth::law_logout(auth::session_opened(a, token, now), token, token, t);
}

/// The connection settings that are read after an edit are those that the form stands for, and
/// those of the other protocols are as they were.
pub proof fn law_connection_reads_back(
    c: config::ConfigModel,
    fields: Seq<model::FieldModel>,
    values: Map<Seq<char>, Seq<char>>,
    other: Seq<char>,
)
    requires
        other != c.protocol,
    ensures
        ({
            let after = config::ConfigModel {
                connections: c.connections.insert(c.protocol, built(fields, values)),
                ..c
            };
            &&& config::connection_of(after) == built(fields, values)
            &&& config::connection_of(config::ConfigModel { protocol: other, ..after })
                == config::connection_of(config::ConfigModel { protocol: other, ..c })
        }),
{
}

/// A point that was added is shown last, and the others are shown as before.
pub proof fn law_added_point_is_shown(
    w: state::WebModel,
    point: model::PointModel,
    facts: Seq<model::FactsModel>,
    fact: model::FactsModel,
)
    requires
        facts.len() == w.shared.config.points.len(),
    ensures
        ({
            let points = w.shared.config.points;
            let before = state::points_document(w.shared, facts);
            let after = state::points_document(
                with_points(w, points.push(point)).shared,
                facts.push(fact),
            );
            &&& before is List
            &&& after is List
            &&& after->List_0 == before->List_0.push(
                dto::point_json(
                    points.len() as int,
                    point,
                    fact,
                    state::status_of(w.shared.statuses, fact.identity),
                ),
            )
        }),
{
    let points = w.shared.config.points;
    let before = state::points_document(w.shared, facts)->List_0;
    let after = state::points_document(
        with_points(w, points.push(point)).shared,
        facts.push(fact),
    )->List_0;
    assert(after =~= before.push(
        dto::point_json(
            points.len() as int,
            point,
            fact,
            state::status_of(w.shared.statuses, fact.identity),
        ),
    ));
}

/// A republisher that was started is not asked to stop until someone asks, and then it is; where
/// none was started, asking changes nothing.
pub proof fn law_stop_reaches_republisher(w: state::WebModel, now_ms: i64)
    ensures
        republishing(w, now_ms).shared.stop_flag == Some(false),
        republishing(w, now_ms).shared.published_total == 0,
        stop_asked(republishing(w, now_ms)).shared.stop_flag == Some(true),
        w.shared.stop_flag is None ==> stop_asked(w) == w,
{
}

/// What a filled field gives is trimmed and not empty, and filling a field with it gives the same.
pub proof fn law_filled_twice(value: Option<Seq<char>>)
    ensures
        filled(filled(value)) == filled(value),
        filled(value) matches Some(t) ==> t.len() > 0 && text::trimmed(t) == t,
        filled(value) is Some <==> value is Some && text::trimmed(value->Some_0).len() > 0,
{
    match value {
        Some(v) => text::lemma_trimmed_twice(v),
        None => {},
    }
}

} // verus!
