//! The daemon's shared state, and what each worker event does to it.
//!
//! Every change is told to the browsers: [`WebState`] collects the documents to send, in order,
//! and whoever holds it sends them. Times are milliseconds of the wall clock.

use vstd::prelude::*;
use vstd::string::*;

use std::collections::VecDeque;

use crate::config;
use crate::config::AppConfig;
use crate::json;
use crate::json::{list_json, put, queue_json, Fields, Json, JsonModel, ToJson};
use crate::model;
use crate::model::{
    Capabilities, DiscoveredDevice, DiscoveredPoint, LogLevel, PointConfig, PointFacts,
    PointIdentity, PointSample, PointStatus, RepublisherLifecycle,
};
use crate::table::{Accept, Duplicate, Table};
use crate::text;
use crate::text::decimal_text;
use crate::web::dto;
use crate::web::dto::{
    browsed_dto, device_dto, identity_key, lifecycle_dto, point_dto, redacted_config, sample_dto,
    status_dto, CapabilitiesDto, SampleDto,
};

verus! {

/// How many log lines are kept.
pub const LOG_CAPACITY: usize = 500;

/// How many samples are kept.
pub const RECENT_SAMPLE_CAPACITY: usize = 200;

/// One line of the log.
#[derive(Debug)]
pub struct LogRecord {
    pub seq: u64,
    pub ts_ms: i64,
    pub level: &'static str,
    pub message: String,
}

/// What a [`LogRecord`] stands for.
pub struct LogModel {
    pub seq: u64,
    pub ts_ms: i64,
    pub level: Seq<char>,
    pub message: Seq<char>,
}

impl View for LogRecord {
    type V = LogModel;

    open spec fn view(&self) -> LogModel {
        LogModel { seq: self.seq, ts_ms: self.ts_ms, level: self.level@, message: self.message@ }
    }
}

impl Duplicate for LogRecord {
    fn duplicate(&self) -> (r: Self) {
        LogRecord {
            seq: self.seq,
            ts_ms: self.ts_ms,
            level: self.level,
            message: self.message.clone(),
        }
    }
}

/// The document of a log line.
pub open spec fn log_json(r: LogModel) -> JsonModel {
    JsonModel::Object(
        map![
            "seq"@ => JsonModel::Number(r.seq as int),
            "ts_ms"@ => JsonModel::Number(r.ts_ms as int),
            "level"@ => JsonModel::Text(r.level),
            "message"@ => JsonModel::Text(r.message),
        ],
    )
}

impl LogRecord {
    /// The document of the line.
    pub fn json(&self) -> (r: Json)
        ensures
            r@ == log_json(self@),
    {
        let mut out: Fields = Vec::new();
        put(&mut out, "seq", Json::Uint(self.seq));
        put(&mut out, "ts_ms", Json::Int(self.ts_ms));
        put(&mut out, "level", Json::Text(self.level.to_string()));
        put(&mut out, "message", Json::Text(self.message.clone()));
        Json::Object(out)
    }
}

/// The name of a level.
pub open spec fn level_name(level: LogLevel) -> Seq<char> {
    match level {
        LogLevel::Info => "info"@,
        LogLevel::Warning => "warning"@,
        LogLevel::Error => "error"@,
    }
}

/// The name of a level.
pub fn level_str(level: LogLevel) -> (r: &'static str)
    ensures
        r@ == level_name(level),
{
    match level {
        LogLevel::Info => "info",
        LogLevel::Warning => "warning",
        LogLevel::Error => "error",
    }
}

/// What the daemon knows. `stop_flag` is there once a republisher was started, and says whether it
/// was asked to stop.
#[derive(Debug)]
pub struct Shared {
    pub config: AppConfig,
    pub devices: Vec<DiscoveredDevice>,
    pub browsed: Vec<DiscoveredPoint>,
    pub scan_progress: Option<(usize, usize)>,
    pub statuses: Table<PointIdentity, PointStatus>,
    pub recent_samples: VecDeque<SampleDto>,
    pub logs: VecDeque<LogRecord>,
    pub log_seq: u64,
    pub lifecycle: RepublisherLifecycle,
    pub stop_flag: Option<bool>,
    pub published_total: usize,
    pub status_line: String,
}

/// What a [`Shared`] stands for. Samples stand newest first, log lines oldest first.
#[verifier::ext_equal]
pub struct SharedModel {
    pub config: config::ConfigModel,
    pub devices: Seq<model::DeviceModel>,
    pub browsed: Seq<model::BrowsedModel>,
    pub scan_progress: Option<(usize, usize)>,
    pub statuses: Map<model::IdentityModel, model::StatusModel>,
    pub recent_samples: Seq<JsonModel>,
    pub logs: Seq<LogModel>,
    pub log_seq: u64,
    pub lifecycle: model::LifecycleModel,
    pub stop_flag: Option<bool>,
    pub published_total: usize,
    pub status_line: Seq<char>,
}

impl View for Shared {
    type V = SharedModel;

    open spec fn view(&self) -> SharedModel {
        SharedModel {
            config: self.config@,
            devices: text::views(self.devices@),
            browsed: text::views(self.browsed@),
            scan_progress: self.scan_progress,
            statuses: self.statuses@,
            recent_samples: text::views(self.recent_samples@),
            logs: text::views(self.logs@),
            log_seq: self.log_seq,
            lifecycle: self.lifecycle@,
            stop_flag: self.stop_flag,
            published_total: self.published_total,
            status_line: self.status_line@,
        }
    }
}

impl SharedModel {
    /// What always holds: the log and the samples never outgrow their bounds, and the log holds
    /// the last lines without a gap.
    pub open spec fn well_formed(self) -> bool {
        &&& self.logs.len() <= LOG_CAPACITY
        &&& self.recent_samples.len() <= RECENT_SAMPLE_CAPACITY
        &&& self.logs.len() <= self.log_seq
        &&& forall|i: int|
            0 <= i < self.logs.len() ==> (#[trigger] self.logs[i]).seq == self.log_seq - (
            self.logs.len() - 1 - i)
    }

    /// Whether `n` more lines can be numbered.
    pub open spec fn has_room(self, n: nat) -> bool {
        self.log_seq + n <= u64::MAX
    }
}

/// The line that is logged next.
pub open spec fn next_record(
    s: SharedModel,
    level: LogLevel,
    message: Seq<char>,
    now_ms: i64,
) -> LogModel {
    LogModel {
        seq: (s.log_seq + 1) as u64,
        ts_ms: now_ms,
        level: level_name(level),
        message,
    }
}

/// Logs a line; where the log is full, its oldest line goes.
pub open spec fn logged(
    s: SharedModel,
    level: LogLevel,
    message: Seq<char>,
    now_ms: i64,
) -> SharedModel {
    let kept = if s.logs.len() >= LOG_CAPACITY {
        s.logs.skip(1)
    } else {
        s.logs
    };
    SharedModel {
        logs: kept.push(next_record(s, level, message, now_ms)),
        log_seq: (s.log_seq + 1) as u64,
        ..s
    }
}

/// Logging keeps the state well-formed.
pub proof fn lemma_logged(s: SharedModel, level: LogLevel, message: Seq<char>, now_ms: i64)
    requires
        s.well_formed(),
        s.has_room(1),
    ensures
        logged(s, level, message, now_ms).well_formed(),
{
    let t = logged(s, level, message, now_ms);
    let kept = if s.logs.len() >= LOG_CAPACITY {
        s.logs.skip(1)
    } else {
        s.logs
    };
    assert forall|i: int| 0 <= i < t.logs.len() implies (#[trigger] t.logs[i]).seq == t.log_seq - (
    t.logs.len() - 1 - i) by {
        if i < kept.len() {
            assert(t.logs[i] == kept[i]);
            if s.logs.len() >= LOG_CAPACITY {
                assert(kept[i] == s.logs[i + 1]);
            }
        }
    }
}

/// Logs a line, and gives it back.
pub fn push_log(shared: &mut Shared, level: LogLevel, message: String, now_ms: i64) -> (r: LogRecord)
    requires
        old(shared)@.has_room(1),
    ensures
        r@ == next_record(old(shared)@, level, message@, now_ms),
        final(shared)@ == logged(old(shared)@, level, message@, now_ms),
        old(shared)@.well_formed() ==> final(shared)@.well_formed(),
{
    proof {
        if shared@.well_formed() {
            lemma_logged(shared@, level, message@, now_ms);
        }
    }
    let ghost before = shared.logs@;
    if shared.logs.len() >= LOG_CAPACITY {
        let _oldest = shared.logs.pop_front();
        assert(text::views(shared.logs@) =~= text::views(before).skip(1));
    }
    shared.log_seq = shared.log_seq + 1;
    let record = LogRecord { seq: shared.log_seq, ts_ms: now_ms, level: level_str(level), message };
    let ghost kept = shared.logs@;
    shared.logs.push_back(record.duplicate());
    assert(text::views(shared.logs@) =~= text::views(kept).push(record@));
    record
}

/// The daemon: what it knows, the adapters it has, and the documents that wait to be sent.
#[derive(Debug)]
pub struct WebState {
    pub caps: Table<String, Capabilities>,
    pub protocol_ids: Vec<String>,
    pub config_path: String,
    pub shared: Shared,
    pub events: Vec<Json>,
}

/// What a [`WebState`] stands for. `sent` are the documents in the order in which they go out.
#[verifier::ext_equal]
pub struct WebModel {
    pub caps: Map<Seq<char>, model::CapsModel>,
    pub protocol_ids: Seq<Seq<char>>,
    pub config_path: Seq<char>,
    pub shared: SharedModel,
    pub sent: Seq<JsonModel>,
}

impl View for WebState {
    type V = WebModel;

    open spec fn view(&self) -> WebModel {
        WebModel {
            caps: self.caps@,
            protocol_ids: text::views(self.protocol_ids@),
            config_path: self.config_path@,
            shared: self.shared@,
            sent: text::views(self.events@),
        }
    }
}

/// The adapters by their names.
pub open spec fn caps_by_id(caps: Seq<model::CapsModel>) -> Map<Seq<char>, model::CapsModel>
    decreases caps.len(),
{
    if caps.len() == 0 {
        Map::empty()
    } else {
        caps_by_id(caps.drop_last()).insert(caps.last().id, caps.last())
    }
}

/// A daemon that has just started.
pub open spec fn fresh(
    caps: Seq<model::CapsModel>,
    protocol_ids: Seq<Seq<char>>,
    config: config::ConfigModel,
    config_path: Seq<char>,
    boot_status: Seq<char>,
    now_ms: i64,
) -> WebModel {
    let start = SharedModel {
        config,
        devices: Seq::empty(),
        browsed: Seq::empty(),
        scan_progress: None,
        statuses: Map::empty(),
        recent_samples: Seq::empty(),
        logs: Seq::empty(),
        log_seq: 0,
        lifecycle: model::LifecycleModel::Stopped,
        stop_flag: None,
        published_total: 0,
        status_line: boot_status,
    };
    WebModel {
        caps: caps_by_id(caps),
        protocol_ids,
        config_path,
        shared: logged(start, LogLevel::Info, boot_status, now_ms),
        sent: Seq::empty(),
    }
}

/// A document of the given type with one more member.
pub open spec fn event_json(kind: Seq<char>, key: Seq<char>, value: JsonModel) -> JsonModel {
    JsonModel::Object(map!["type"@ => JsonModel::Text(kind), key => value])
}

/// A document of the given type with one more member.
pub(crate) fn event(kind: &str, key: &str, value: Json) -> (r: Json)
    ensures
        r@ == event_json(kind@, key@, value@),
{
    let mut out: Fields = Vec::new();
    put(&mut out, "type", Json::Text(kind.to_string()));
    put(&mut out, key, value);
    Json::Object(out)
}

/// What is sent of a log line.
pub open spec fn log_event(r: LogModel) -> JsonModel {
    event_json("log"@, "record"@, log_json(r))
}

/// What is sent of a log line that is the status line too.
pub open spec fn status_event(r: LogModel, status_line: Seq<char>) -> JsonModel {
    JsonModel::Object(
        map![
            "type"@ => JsonModel::Text("log"@),
            "record"@ => log_json(r),
            "status_line"@ => JsonModel::Text(status_line),
        ],
    )
}

/// One more document to send.
pub open spec fn emitted(w: WebModel, value: JsonModel) -> WebModel {
    WebModel { sent: w.sent.push(value), ..w }
}

/// Logs a line and tells of it.
pub open spec fn told(w: WebModel, level: LogLevel, message: Seq<char>, now_ms: i64) -> WebModel {
    emitted(
        WebModel { shared: logged(w.shared, level, message, now_ms), ..w },
        log_event(next_record(w.shared, level, message, now_ms)),
    )
}

/// Sets the status line, logs it and tells of it.
pub open spec fn status_set(
    w: WebModel,
    level: LogLevel,
    message: Seq<char>,
    now_ms: i64,
) -> WebModel {
    let s = SharedModel { status_line: message, ..w.shared };
    emitted(
        WebModel { shared: logged(s, level, message, now_ms), ..w },
        status_event(next_record(s, level, message, now_ms), message),
    )
}

/// What came of validating the configuration and writing it to disk.
#[derive(Debug)]
pub enum SaveOutcome {
    /// It is not valid, and was not written.
    Invalid(String),
    /// It was written.
    Saved,
    /// It could not be written.
    Failed(String),
}

/// What a [`SaveOutcome`] stands for.
pub enum SaveModel {
    Invalid(Seq<char>),
    Saved,
    Failed(Seq<char>),
}

impl View for SaveOutcome {
    type V = SaveModel;

    open spec fn view(&self) -> SaveModel {
        match self {
            SaveOutcome::Invalid(e) => SaveModel::Invalid(e@),
            SaveOutcome::Saved => SaveModel::Saved,
            SaveOutcome::Failed(e) => SaveModel::Failed(e@),
        }
    }
}

/// What is to be done once the configuration was validated.
#[derive(Debug)]
pub enum SaveStep {
    /// It is not to be written, and this is what came of saving it.
    Refuse(SaveOutcome),
    /// It is to be written to disk.
    Write,
}

/// What is to be done once the configuration was validated: one that is not valid is never written.
pub fn save_step(validated: Result<(), String>) -> (r: SaveStep)
    ensures
        match validated {
            Ok(_) => r is Write,
            Err(e) => r matches SaveStep::Refuse(outcome) && outcome@ == SaveModel::Invalid(e@),
        },
{
    match validated {
        Ok(()) => SaveStep::Write,
        Err(e) => SaveStep::Refuse(SaveOutcome::Invalid(e)),
    }
}

/// What came of saving a configuration that was to be written.
pub fn write_outcome(written: Result<(), String>) -> (r: SaveOutcome)
    ensures
        r@ == match written {
            Ok(_) => SaveModel::Saved,
            Err(e) => SaveModel::Failed(e@),
        },
{
    match written {
        Ok(()) => SaveOutcome::Saved,
        Err(e) => SaveOutcome::Failed(e),
    }
}

/// Why the configuration was not saved.
pub open spec fn save_error(outcome: SaveModel) -> Option<Seq<char>> {
    match outcome {
        SaveModel::Invalid(e) => Some("Config invalid: "@ + e),
        SaveModel::Saved => None,
        SaveModel::Failed(e) => Some("Save failed: "@ + e),
    }
}

/// Notes what came of saving.
pub open spec fn saved(w: WebModel, outcome: SaveModel, now_ms: i64) -> WebModel {
    match save_error(outcome) {
        None => status_set(w, LogLevel::Info, "Configuration saved"@, now_ms),
        Some(message) => status_set(w, LogLevel::Error, message, now_ms),
    }
}

/// The status of a point.
pub open spec fn status_of(
    statuses: Map<model::IdentityModel, model::StatusModel>,
    identity: model::IdentityModel,
) -> Option<model::StatusModel> {
    if statuses.dom().contains(identity) {
        Some(statuses[identity])
    } else {
        None
    }
}

/// The document of the configured points. `facts` says of each point what the protocol core
/// derives from it.
pub open spec fn points_document(s: SharedModel, facts: Seq<model::FactsModel>) -> JsonModel {
    JsonModel::List(
        Seq::new(
            s.config.points.len(),
            |i: int|
                dto::point_json(
                    i,
                    s.config.points[i],
                    facts[i],
                    status_of(s.statuses, facts[i].identity),
                ),
        ),
    )
}

/// How many points are stale.
pub open spec fn stale_count(statuses: Map<model::IdentityModel, model::StatusModel>) -> nat {
    statuses.dom().filter(|k: model::IdentityModel| statuses[k].stale).len()
}

/// The document of a scan's progress.
pub open spec fn progress_json(progress: Option<(usize, usize)>) -> JsonModel {
    match progress {
        Some((current, total)) => JsonModel::Object(
            map![
                "current"@ => JsonModel::Number(current as int),
                "total"@ => JsonModel::Number(total as int),
            ],
        ),
        None => JsonModel::Null,
    }
}

/// The document of the daemon's status.
pub open spec fn status_document(w: WebModel) -> JsonModel {
    JsonModel::Object(
        map![
            "status_line"@ => JsonModel::Text(w.shared.status_line),
            "protocol"@ => JsonModel::Text(w.shared.config.protocol),
            "lifecycle"@ => dto::lifecycle_json(w.shared.lifecycle),
            "points"@ => JsonModel::Number(w.shared.config.points.len() as int),
            "devices"@ => JsonModel::Number(w.shared.devices.len() as int),
            "published_total"@ => JsonModel::Number(w.shared.published_total as int),
            "stale_points"@ => JsonModel::Number(stale_count(w.shared.statuses) as int),
            "scan_progress"@ => progress_json(w.shared.scan_progress),
            "config_path"@ => JsonModel::Text(w.config_path),
        ],
    )
}

/// The documents of the adapters, in the order of their names in `ids`.
pub open spec fn capability_list(
    ids: Seq<Seq<char>>,
    caps: Map<Seq<char>, model::CapsModel>,
) -> Seq<JsonModel>
    decreases ids.len(),
{
    if ids.len() == 0 {
        Seq::empty()
    } else {
        let rest = capability_list(ids.drop_last(), caps);
        if caps.dom().contains(ids.last()) {
            rest.push(dto::capabilities_json(caps[ids.last()]))
        } else {
            rest
        }
    }
}

/// The document of the discovered devices.
pub open spec fn devices_document(devices: Seq<model::DeviceModel>) -> JsonModel {
    JsonModel::List(Seq::new(devices.len(), |i: int| dto::device_json(i, devices[i])))
}

/// The document of the browsed points.
pub open spec fn browsed_list(browsed: Seq<model::BrowsedModel>) -> JsonModel {
    JsonModel::List(Seq::new(browsed.len(), |i: int| dto::browsed_json(i, browsed[i])))
}

/// The document of the log.
pub open spec fn logs_document(logs: Seq<LogModel>) -> JsonModel {
    JsonModel::List(Seq::new(logs.len(), |i: int| log_json(logs[i])))
}

/// The document of everything, from which a browser starts.
pub open spec fn snapshot_document(w: WebModel, facts: Seq<model::FactsModel>) -> JsonModel {
    JsonModel::Object(
        map![
            "type"@ => JsonModel::Text("snapshot"@),
            "status"@ => status_document(w),
            "capabilities"@ => JsonModel::List(capability_list(w.protocol_ids, w.caps)),
            "config"@ => dto::redacted_json(w.shared.config),
            "devices"@ => devices_document(w.shared.devices),
            "browsed"@ => browsed_list(w.shared.browsed),
            "points"@ => points_document(w.shared, facts),
            "recent_samples"@ => JsonModel::List(w.shared.recent_samples),
            "logs"@ => logs_document(w.shared.logs),
        ],
    )
}

/// The document of the discovered devices.
pub(crate) fn devices_json(devices: &Vec<DiscoveredDevice>) -> (r: Json)
    ensures
        r@ == devices_document(text::views(devices@)),
{
    let mut out: Vec<Json> = Vec::new();
    let mut i: usize = 0;
    while i < devices.len()
        invariant
            i <= devices.len(),
            out@.len() == i,
            forall|j: int| 0 <= j < i ==> (#[trigger] out@[j])@ == dto::device_json(j, devices@[j]@),
        decreases devices.len() - i,
    {
        out.push(device_dto(i, &devices[i]).to_json());
        i = i + 1;
    }
    proof {
        json::lemma_list_model(out@);
        let target = Seq::new(
            text::views(devices@).len(),
            |i: int| dto::device_json(i, text::views(devices@)[i]),
        );
        assert(json::list_model(out@) =~= target);
    }
    Json::List(out)
}

/// The document of the browsed points.
pub(crate) fn browsed_json(points: &Vec<DiscoveredPoint>) -> (r: Json)
    ensures
        r@ == browsed_list(text::views(points@)),
{
    let mut out: Vec<Json> = Vec::new();
    let mut i: usize = 0;
    while i < points.len()
        invariant
            i <= points.len(),
            out@.len() == i,
            forall|j: int| 0 <= j < i ==> (#[trigger] out@[j])@ == dto::browsed_json(j, points@[j]@),
        decreases points.len() - i,
    {
        out.push(browsed_dto(i, &points[i]).to_json());
        i = i + 1;
    }
    proof {
        json::lemma_list_model(out@);
        let target = Seq::new(
            text::views(points@).len(),
            |i: int| dto::browsed_json(i, text::views(points@)[i]),
        );
        assert(json::list_model(out@) =~= target);
    }
    Json::List(out)
}

/// The document of the log.
pub(crate) fn logs_json(logs: &VecDeque<LogRecord>) -> (r: Json)
    ensures
        r@ == logs_document(text::views(logs@)),
{
    let mut out: Vec<Json> = Vec::new();
    let mut i: usize = 0;
    while i < logs.len()
        invariant
            i <= logs@.len(),
            out@.len() == i,
            forall|j: int| 0 <= j < i ==> (#[trigger] out@[j])@ == log_json(logs@[j]@),
        decreases logs@.len() - i,
    {
        out.push(logs[i].json());
        i = i + 1;
    }
    proof {
        json::lemma_list_model(out@);
        let target = Seq::new(
            text::views(logs@).len(),
            |i: int| log_json(text::views(logs@)[i]),
        );
        assert(json::list_model(out@) =~= target);
    }
    Json::List(out)
}

/// The choice of the stale statuses.
struct Stale;

impl Accept<PointStatus> for Stale {
    open spec fn accepted(&self, v: model::StatusModel) -> bool {
        v.stale
    }

    fn accept(&self, v: &PointStatus) -> (r: bool) {
        v.stale
    }
}

impl WebState {
    /// A daemon that has just started, with its first log line.
    pub fn new(
        capabilities: Vec<Capabilities>,
        protocol_ids: Vec<String>,
        config: AppConfig,
        config_path: String,
        boot_status: String,
        now_ms: i64,
    ) -> (r: Self)
        ensures
            r@ == fresh(
                text::views(capabilities@),
                text::views(protocol_ids@),
                config@,
                config_path@,
                boot_status@,
                now_ms,
            ),
            r@.shared.well_formed(),
    {
        let mut caps: Table<String, Capabilities> = Table::new();
        let ghost all = capabilities@;
        let ghost shown = text::views(all);
        assert(shown.take(0) =~= Seq::empty());
        for adapter in iter: capabilities
            invariant
                iter.seq() == all,
                shown == text::views(all),
                caps@ == caps_by_id(shown.take(iter.index())),
        {
            proof {
                let n = iter.index();
                assert(shown.take(n + 1).drop_last() =~= shown.take(n));
            }
            caps.insert(adapter.id.clone(), adapter);
        }
        assert(shown.take(shown.len() as int) =~= shown);
        let mut shared = Shared {
            config,
            devices: Vec::new(),
            browsed: Vec::new(),
            scan_progress: None,
            statuses: Table::new(),
            recent_samples: VecDeque::new(),
            logs: VecDeque::new(),
            log_seq: 0,
            lifecycle: RepublisherLifecycle::Stopped,
            stop_flag: None,
            published_total: 0,
            status_line: boot_status.clone(),
        };
        let ghost start = shared@;
        proof {
            lemma_logged(start, LogLevel::Info, boot_status@, now_ms);
            assert(start.devices =~= Seq::empty());
            assert(start.browsed =~= Seq::empty());
            assert(start.recent_samples =~= Seq::empty());
            assert(start.logs =~= Seq::empty());
        }
        let _record = push_log(&mut shared, LogLevel::Info, boot_status, now_ms);
        let r = WebState { caps, protocol_ids, config_path, shared, events: Vec::new() };
        assert(r@.sent =~= Seq::empty());
        r
    }

    /// Queues one document for the browsers.
    pub fn emit(&mut self, value: Json)
        ensures
            old(self)@.shared.well_formed() ==> final(self)@.shared.well_formed(),
            final(self)@ == emitted(old(self)@, value@),
    {
        let ghost before = self.events@;
        self.events.push(value);
        assert(text::views(self.events@) =~= text::views(before).push(value@));
    }

    /// Logs a line and tells of it.
    fn tell(&mut self, level: LogLevel, message: String, now_ms: i64)
        requires
            old(self)@.shared.has_room(1),
        ensures
            final(self)@ == told(old(self)@, level, message@, now_ms),
    {
        let record = push_log(&mut self.shared, level, message, now_ms);
        self.emit(event("log", "record", record.json()));
    }

    /// Sets the status line, logs it and tells of it.
    pub fn set_status(&mut self, level: LogLevel, message: &str, now_ms: i64)
        requires
            old(self)@.shared.has_room(1),
        ensures
            final(self)@ == status_set(old(self)@, level, message@, now_ms),
            old(self)@.shared.well_formed() ==> final(self)@.shared.well_formed(),
    {
        proof {
            let s = SharedModel { status_line: message@, ..self@.shared };
            if s.well_formed() {
                lemma_logged(s, level, message@, now_ms);
            }
        }
        self.shared.status_line = message.to_string();
        let record = push_log(&mut self.shared, level, message.to_string(), now_ms);
        let mut out: Fields = Vec::new();
        put(&mut out, "type", Json::Text("log".to_string()));
        put(&mut out, "record", record.json());
        put(&mut out, "status_line", Json::Text(self.shared.status_line.clone()));
        self.emit(Json::Object(out));
    }

    /// Notes what came of validating and saving the configuration. An error says why it was not
    /// saved.
    pub fn save_config(&mut self, outcome: SaveOutcome, now_ms: i64) -> (r: Result<(), String>)
        requires
            old(self)@.shared.has_room(1),
        ensures
            final(self)@ == saved(old(self)@, outcome@, now_ms),
            old(self)@.shared.well_formed() ==> final(self)@.shared.well_formed(),
            match r {
                Ok(_) => save_error(outcome@) is None,
                Err(e) => save_error(outcome@) == Some(e@),
            },
    {
        match outcome {
            SaveOutcome::Saved => {
                self.set_status(LogLevel::Info, "Configuration saved", now_ms);
                Ok(())
            },
            SaveOutcome::Invalid(error) => {
                let mut message = "Config invalid: ".to_string();
                message.append(&error);
                self.set_status(LogLevel::Error, &message, now_ms);
                Err(message)
            },
            SaveOutcome::Failed(error) => {
                let mut message = "Save failed: ".to_string();
                message.append(&error);
                self.set_status(LogLevel::Error, &message, now_ms);
                Err(message)
            },
        }
    }

    /// The document of the configured points. `facts` says of each point what the protocol core
    /// derives from it.
    pub fn points_json(&self, facts: &Vec<PointFacts>) -> (r: Json)
        requires
            facts@.len() == self@.shared.config.points.len(),
        ensures
            r@ == points_document(self@.shared, text::views(facts@)),
    {
        let mut out: Vec<Json> = Vec::new();
        let mut i: usize = 0;
        let ghost s = self@.shared;
        while i < self.shared.config.points.len()
            invariant
                i <= self.shared.config.points@.len(),
                facts@.len() == self.shared.config.points@.len(),
                s == self@.shared,
                out@.len() == i,
                forall|j: int|
                    0 <= j < i ==> (#[trigger] out@[j])@ == dto::point_json(
                        j,
                        s.config.points[j],
                        text::views(facts@)[j],
                        status_of(s.statuses, text::views(facts@)[j].identity),
                    ),
            decreases self.shared.config.points@.len() - i,
        {
            let status = self.shared.statuses.get(&facts[i].identity);
            out.push(
                point_dto(i, &self.shared.config.points[i], &facts[i], status).to_json(),
            );
            i = i + 1;
        }
        proof {
            json::lemma_list_model(out@);
            let f = text::views(facts@);
            let target = Seq::new(
                s.config.points.len(),
                |i: int|
                    dto::point_json(
                        i,
                        s.config.points[i],
                        f[i],
                        status_of(s.statuses, f[i].identity),
                    ),
            );
            assert(json::list_model(out@) =~= target);
        }
        Json::List(out)
    }

    /// Tells of the configured points.
    pub fn emit_points(&mut self, facts: &Vec<PointFacts>)
        requires
            facts@.len() == old(self)@.shared.config.points.len(),
        ensures
            old(self)@.shared.well_formed() ==> final(self)@.shared.well_formed(),
            final(self)@ == points_told(old(self)@, text::views(facts@)),
    {
        let points = self.points_json(facts);
        self.emit(event("points", "points", points));
    }

    /// The document of the daemon's status.
    pub fn status_json(&self) -> (r: Json)
        ensures
            r@ == status_document(self@),
    {
        let shared = &self.shared;
        let stale = shared.statuses.count(&Stale);
        proof {
            let m = shared.statuses@;
            assert(m.dom().filter(|k: model::IdentityModel| Stale.accepted(m[k])) =~= m.dom().filter(
                |k: model::IdentityModel| m[k].stale,
            ));
        }
        let progress = match shared.scan_progress {
            Some((current, total)) => {
                let mut p: Fields = Vec::new();
                put(&mut p, "current", Json::Uint(current as u64));
                put(&mut p, "total", Json::Uint(total as u64));
                Json::Object(p)
            },
            None => Json::Null,
        };
        let mut out: Fields = Vec::new();
        put(&mut out, "status_line", Json::Text(shared.status_line.clone()));
        put(&mut out, "protocol", Json::Text(shared.config.protocol.clone()));
        put(&mut out, "lifecycle", lifecycle_dto(&shared.lifecycle));
        put(&mut out, "points", Json::Uint(shared.config.points.len() as u64));
        put(&mut out, "devices", Json::Uint(shared.devices.len() as u64));
        put(&mut out, "published_total", Json::Uint(shared.published_total as u64));
        put(&mut out, "stale_points", Json::Uint(stale as u64));
        put(&mut out, "scan_progress", progress);
        put(&mut out, "config_path", Json::Text(self.config_path.clone()));
        Json::Object(out)
    }

    /// The documents of the adapters, in the order of their names.
    pub fn capabilities_json(&self) -> (r: Json)
        ensures
            r@ == JsonModel::List(capability_list(self@.protocol_ids, self@.caps)),
    {
        let mut out: Vec<CapabilitiesDto> = Vec::new();
        let mut i: usize = 0;
        let ghost ids = self@.protocol_ids;
        assert(ids.take(0) =~= Seq::empty());
        assert(text::views(out@) =~= Seq::empty());
        while i < self.protocol_ids.len()
            invariant
                i <= self.protocol_ids@.len(),
                ids == self@.protocol_ids,
                text::views(out@) == capability_list(ids.take(i as int), self@.caps),
            decreases self.protocol_ids@.len() - i,
        {
            proof {
                assert(ids.take(i + 1).drop_last() =~= ids.take(i as int));
            }
            let ghost before = out@;
            match self.caps.get(&self.protocol_ids[i]) {
                Some(found) => {
                    out.push(CapabilitiesDto::of(found));
                    assert(text::views(out@) =~= text::views(before).push(out@.last()@));
                },
                None => {},
            }
            i = i + 1;
        }
        assert(ids.take(ids.len() as int) =~= ids);
        list_json(&out)
    }

    /// The document of everything, from which a browser starts.
    pub fn snapshot_json(&self, facts: &Vec<PointFacts>) -> (r: Json)
        requires
            facts@.len() == self@.shared.config.points.len(),
        ensures
            r@ == snapshot_document(self@, text::views(facts@)),
    {
        let mut out: Fields = Vec::new();
        put(&mut out, "type", Json::Text("snapshot".to_string()));
        put(&mut out, "status", self.status_json());
        put(&mut out, "capabilities", self.capabilities_json());
        put(&mut out, "config", redacted_config(&self.shared.config));
        put(&mut out, "devices", devices_json(&self.shared.devices));
        put(&mut out, "browsed", browsed_json(&self.shared.browsed));
        put(&mut out, "points", self.points_json(facts));
        put(&mut out, "recent_samples", queue_json(&self.shared.recent_samples));
        put(&mut out, "logs", logs_json(&self.shared.logs));
        Json::Object(out)
    }
}

/// Tells of the configured points.
pub open spec fn points_told(w: WebModel, facts: Seq<model::FactsModel>) -> WebModel {
    emitted(w, event_json("points"@, "points"@, points_document(w.shared, facts)))
}

/// A point and the status that it now has.
#[derive(Debug)]
pub struct StatusUpdate {
    pub identity: PointIdentity,
    pub status: PointStatus,
}

/// What a [`StatusUpdate`] stands for.
pub struct UpdateModel {
    pub identity: model::IdentityModel,
    pub status: model::StatusModel,
}

impl View for StatusUpdate {
    type V = UpdateModel;

    open spec fn view(&self) -> UpdateModel {
        UpdateModel { identity: self.identity@, status: self.status@ }
    }
}

/// A sample and the status that its point has once the sample is recorded.
#[derive(Debug)]
pub struct SampleReport {
    pub sample: PointSample,
    pub status: PointStatus,
}

/// What a [`SampleReport`] stands for.
pub struct ReportModel {
    pub sample: model::SampleModel,
    pub status: model::StatusModel,
}

impl View for SampleReport {
    type V = ReportModel;

    open spec fn view(&self) -> ReportModel {
        ReportModel { sample: self.sample@, status: self.status@ }
    }
}

/// What a worker reports.
#[derive(Debug)]
pub enum WorkerEvent {
    /// A line for the log.
    Log(LogLevel, String),
    /// What discovery found, and what it warns of.
    Devices { devices: Vec<DiscoveredDevice>, warnings: Vec<String> },
    /// What browsing found.
    Points(Vec<DiscoveredPoint>),
    /// How far a scan is.
    ScanProgress { current: usize, total: usize },
    /// The configured points after a scan was merged into them.
    BulkTagImport { points: Vec<PointConfig>, added: usize, updated: usize },
    /// Samples, oldest first.
    Samples(Vec<SampleReport>),
    /// Points that could not be read.
    Failures(Vec<StatusUpdate>),
    /// How many messages were published since the last report.
    PublishStatus { published: usize },
    /// What came of publishing one point.
    PointPublish(StatusUpdate),
    /// Where the republisher stands.
    Lifecycle(RepublisherLifecycle),
    /// A job is done.
    Finished(String),
}

/// What a [`WorkerEvent`] stands for.
pub enum WorkerModel {
    Log(LogLevel, Seq<char>),
    Devices { devices: Seq<model::DeviceModel>, warnings: Seq<Seq<char>> },
    Points(Seq<model::BrowsedModel>),
    ScanProgress { current: usize, total: usize },
    BulkTagImport { points: Seq<model::PointModel>, added: usize, updated: usize },
    Samples(Seq<ReportModel>),
    Failures(Seq<UpdateModel>),
    PublishStatus { published: usize },
    PointPublish(UpdateModel),
    Lifecycle(model::LifecycleModel),
    Finished(Seq<char>),
}

impl View for WorkerEvent {
    type V = WorkerModel;

    open spec fn view(&self) -> WorkerModel {
        match self {
            WorkerEvent::Log(level, message) => WorkerModel::Log(*level, message@),
            WorkerEvent::Devices { devices, warnings } => WorkerModel::Devices {
                devices: text::views(devices@),
                warnings: text::views(warnings@),
            },
            WorkerEvent::Points(points) => WorkerModel::Points(text::views(points@)),
            WorkerEvent::ScanProgress { current, total } => WorkerModel::ScanProgress {
                current: *current,
                total: *total,
            },
            WorkerEvent::BulkTagImport { points, added, updated } => WorkerModel::BulkTagImport {
                points: text::views(points@),
                added: *added,
                updated: *updated,
            },
            WorkerEvent::Samples(reports) => WorkerModel::Samples(text::views(reports@)),
            WorkerEvent::Failures(updates) => WorkerModel::Failures(text::views(updates@)),
            WorkerEvent::PublishStatus { published } => WorkerModel::PublishStatus {
                published: *published,
            },
            WorkerEvent::PointPublish(update) => WorkerModel::PointPublish(update@),
            WorkerEvent::Lifecycle(lifecycle) => WorkerModel::Lifecycle(lifecycle@),
            WorkerEvent::Finished(message) => WorkerModel::Finished(message@),
        }
    }
}

/// How many lines an event logs.
pub open spec fn event_lines(e: WorkerModel) -> nat {
    match e {
        WorkerModel::Log(_, _) => 1,
        WorkerModel::Devices { devices, warnings } => warnings.len(),
        WorkerModel::Lifecycle(model::LifecycleModel::Failed(_)) => 1,
        WorkerModel::Finished(_) => 1,
        _ => 0,
    }
}

/// Whether the counters can take an event.
pub open spec fn fits(w: WebModel, e: WorkerModel) -> bool {
    &&& w.shared.has_room(event_lines(e))
    &&& e matches WorkerModel::PublishStatus { published } ==> w.shared.published_total + published
        <= usize::MAX
}

/// Logs warnings one after the other and tells of each.
pub open spec fn warned(w: WebModel, warnings: Seq<Seq<char>>, now_ms: i64) -> WebModel
    decreases warnings.len(),
{
    if warnings.len() == 0 {
        w
    } else {
        told(warned(w, warnings.drop_last(), now_ms), LogLevel::Warning, warnings.last(), now_ms)
    }
}

/// The statuses after updates, the later of which win.
pub open spec fn updated(
    statuses: Map<model::IdentityModel, model::StatusModel>,
    updates: Seq<UpdateModel>,
) -> Map<model::IdentityModel, model::StatusModel>
    decreases updates.len(),
{
    if updates.len() == 0 {
        statuses
    } else {
        updated(statuses, updates.drop_last()).insert(
            updates.last().identity,
            updates.last().status,
        )
    }
}

/// What is sent of updates: each status under its point's key, the later of which win.
pub open spec fn update_members(updates: Seq<UpdateModel>) -> Map<Seq<char>, JsonModel>
    decreases updates.len(),
{
    if updates.len() == 0 {
        Map::empty()
    } else {
        update_members(updates.drop_last()).insert(
            dto::identity_text(updates.last().identity),
            dto::point_status_json(Some(updates.last().status)),
        )
    }
}

/// The updates that samples bring.
pub open spec fn report_updates(reports: Seq<ReportModel>) -> Seq<UpdateModel> {
    Seq::new(
        reports.len(),
        |i: int| UpdateModel { identity: reports[i].sample.identity, status: reports[i].status },
    )
}

/// The documents of samples.
pub open spec fn report_documents(reports: Seq<ReportModel>) -> Seq<JsonModel> {
    Seq::new(reports.len(), |i: int| dto::sample_json(reports[i].sample))
}

/// The first of the items, up to a number.
pub open spec fn at_most<T>(s: Seq<T>, n: nat) -> Seq<T> {
    if s.len() > n {
        s.take(n as int)
    } else {
        s
    }
}

/// What a batch of samples does.
pub open spec fn sampled(w: WebModel, reports: Seq<ReportModel>) -> WebModel {
    let updates = report_updates(reports);
    let documents = report_documents(reports);
    let s = SharedModel {
        statuses: updated(w.shared.statuses, updates),
        recent_samples: at_most(
            documents.reverse() + w.shared.recent_samples,
            RECENT_SAMPLE_CAPACITY as nat,
        ),
        ..w.shared
    };
    emitted(
        WebModel { shared: s, ..w },
        JsonModel::Object(
            map![
                "type"@ => JsonModel::Text("samples"@),
                "samples"@ => JsonModel::List(documents),
                "statuses"@ => JsonModel::Object(update_members(updates)),
            ],
        ),
    )
}

/// What updates of statuses do.
pub open spec fn restated(w: WebModel, updates: Seq<UpdateModel>) -> WebModel {
    emitted(
        WebModel {
            shared: SharedModel { statuses: updated(w.shared.statuses, updates), ..w.shared },
            ..w
        },
        event_json("statuses"@, "statuses"@, JsonModel::Object(update_members(updates))),
    )
}

/// What an event does.
pub open spec fn applied(w: WebModel, e: WorkerModel, now_ms: i64) -> WebModel {
    match e {
        WorkerModel::Log(level, message) => told(w, level, message, now_ms),
        WorkerModel::Devices { devices, warnings } => {
            let found = WebModel { shared: SharedModel { devices, ..w.shared }, ..w };
            emitted(
                warned(found, warnings, now_ms),
                event_json("devices"@, "devices"@, devices_document(devices)),
            )
        },
        WorkerModel::Points(browsed) => emitted(
            WebModel { shared: SharedModel { browsed, ..w.shared }, ..w },
            event_json("browsed"@, "points"@, browsed_list(browsed)),
        ),
        WorkerModel::ScanProgress { current, total } => emitted(
            WebModel {
                shared: SharedModel { scan_progress: Some((current, total)), ..w.shared },
                ..w
            },
            progress_event(current, total),
        ),
        WorkerModel::BulkTagImport { points, added, updated } => WebModel {
            shared: SharedModel {
                config: config::ConfigModel { points, ..w.shared.config },
                scan_progress: None,
                ..w.shared
            },
            ..w
        },
        WorkerModel::Samples(reports) => sampled(w, reports),
        WorkerModel::Failures(updates) => restated(w, updates),
        WorkerModel::PublishStatus { published } => {
            let total = (w.shared.published_total + published) as usize;
            emitted(
                WebModel { shared: SharedModel { published_total: total, ..w.shared }, ..w },
                event_json("stats"@, "published_total"@, JsonModel::Number(total as int)),
            )
        },
        WorkerModel::PointPublish(update) => restated(w, seq![update]),
        WorkerModel::Lifecycle(lifecycle) => {
            let noted = match lifecycle {
                model::LifecycleModel::Failed(error) => told(
                    w,
                    LogLevel::Error,
                    "Republisher failed: "@ + error,
                    now_ms,
                ),
                _ => w,
            };
            emitted(
                WebModel { shared: SharedModel { lifecycle, ..noted.shared }, ..noted },
                event_json("lifecycle"@, "lifecycle"@, dto::lifecycle_json(lifecycle)),
            )
        },
        WorkerModel::Finished(message) => told(w, LogLevel::Info, message, now_ms),
    }
}

/// What is sent of a scan's progress.
pub open spec fn progress_event(current: usize, total: usize) -> JsonModel {
    JsonModel::Object(
        map![
            "type"@ => JsonModel::Text("scan_progress"@),
            "current"@ => JsonModel::Number(current as int),
            "total"@ => JsonModel::Number(total as int),
        ],
    )
}

/// What is left to do once an event was applied.
#[derive(Debug, Clone, Copy, PartialEq, Eq, Structural)]
pub enum AfterEvent {
    /// Nothing.
    Done,
    /// The configuration has new points: it is to be saved, and
    /// [`finish_import`](WebState::finish_import) to be called with what came of it.
    Imported { added: usize, updated: usize },
}

/// What is left to do once an event was applied.
pub open spec fn left_to_do(e: WorkerModel) -> AfterEvent {
    match e {
        WorkerModel::BulkTagImport { points, added, updated } => AfterEvent::Imported {
            added,
            updated,
        },
        _ => AfterEvent::Done,
    }
}

/// What is said of an import.
pub open spec fn import_message(added: usize, updated: usize) -> Seq<char> {
    "Bulk import: "@ + text::decimal(added as nat) + " added, "@ + text::decimal(updated as nat)
        + " updated"@
}

/// The end of an import: whether it was saved or not, it is noted and the points are told of.
pub open spec fn import_finished(
    w: WebModel,
    added: usize,
    updated: usize,
    outcome: SaveModel,
    facts: Seq<model::FactsModel>,
    now_ms: i64,
) -> WebModel {
    points_told(
        status_set(
            saved(w, outcome, now_ms),
            LogLevel::Info,
            import_message(added, updated),
            now_ms,
        ),
        facts,
    )
}

/// What is sent of a scan's progress.
pub(crate) fn progress(current: usize, total: usize) -> (r: Json)
    ensures
        r@ == progress_event(current, total),
{
    let mut out: Fields = Vec::new();
    put(&mut out, "type", Json::Text("scan_progress".to_string()));
    put(&mut out, "current", Json::Uint(current as u64));
    put(&mut out, "total", Json::Uint(total as u64));
    Json::Object(out)
}

/// Telling of warnings keeps the rest, numbers each line, and keeps the state well-formed.
proof fn lemma_warned(w: WebModel, warnings: Seq<Seq<char>>, now_ms: i64)
    requires
        w.shared.has_room(warnings.len()),
    ensures
        warned(w, warnings, now_ms).shared.log_seq == w.shared.log_seq + warnings.len(),
        warned(w, warnings, now_ms).shared.devices == w.shared.devices,
        w.shared.well_formed() ==> warned(w, warnings, now_ms).shared.well_formed(),
    decreases warnings.len(),
{
    if warnings.len() > 0 {
        let before = warned(w, warnings.drop_last(), now_ms);
        lemma_warned(w, warnings.drop_last(), now_ms);
        if w.shared.well_formed() {
            lemma_logged(before.shared, LogLevel::Warning, warnings.last(), now_ms);
        }
    }
}

/// An event that fits keeps the state well-formed.
proof fn lemma_applied(w: WebModel, e: WorkerModel, now_ms: i64)
    requires
        fits(w, e),
        w.shared.well_formed(),
    ensures
        applied(w, e, now_ms).shared.well_formed(),
{
    match e {
        WorkerModel::Log(level, message) => lemma_logged(w.shared, level, message, now_ms),
        WorkerModel::Devices { devices, warnings } => {
            let found = WebModel { shared: SharedModel { devices, ..w.shared }, ..w };
            lemma_warned(found, warnings, now_ms);
        },
        WorkerModel::Lifecycle(model::LifecycleModel::Failed(error)) => lemma_logged(
            w.shared,
            LogLevel::Error,
            "Republisher failed: "@ + error,
            now_ms,
        ),
        WorkerModel::Finished(message) => lemma_logged(w.shared, LogLevel::Info, message, now_ms),
        _ => {},
    }
}

impl WebState {
    /// Whether the counters can take an event.
    pub fn can_apply(&self, e: &WorkerEvent) -> (r: bool)
        ensures
            r == fits(self@, e@),
    {
        let lines: u64 = match e {
            WorkerEvent::Log(_, _) => 1,
            WorkerEvent::Devices { devices: _, warnings } => warnings.len() as u64,
            WorkerEvent::Lifecycle(RepublisherLifecycle::Failed(_)) => 1,
            WorkerEvent::Finished(_) => 1,
            _ => 0,
        };
        if lines > u64::MAX - self.shared.log_seq {
            return false;
        }
        match e {
            WorkerEvent::PublishStatus { published } => *published <= usize::MAX
                - self.shared.published_total,
            _ => true,
        }
    }

    /// Whether `n` more log lines can be numbered.
    pub fn can_log(&self, n: u64) -> (r: bool)
        ensures
            r == self@.shared.has_room(n as nat),
    {
        n <= u64::MAX - self.shared.log_seq
    }

    /// Takes over new statuses, and gives back what is sent of them.
    fn update_statuses(&mut self, updates: Vec<StatusUpdate>) -> (r: Json)
        ensures
            final(self)@ == (WebModel {
                shared: SharedModel {
                    statuses: updated(old(self)@.shared.statuses, text::views(updates@)),
                    ..old(self)@.shared
                },
                ..old(self)@
            }),
            r@ == JsonModel::Object(update_members(text::views(updates@))),
    {
        let ghost all = updates@;
        let ghost shown = text::views(all);
        let ghost start = self@;
        let mut changed: Fields = Vec::new();
        assert(shown.take(0) =~= Seq::empty());
        for update in iter: updates
            invariant
                iter.seq() == all,
                shown == text::views(all),
                self@ == (WebModel {
                    shared: SharedModel {
                        statuses: updated(start.shared.statuses, shown.take(iter.index())),
                        ..start.shared
                    },
                    ..start
                }),
                json::fields_model(changed@) == update_members(shown.take(iter.index())),
        {
            proof {
                let n = iter.index();
                assert(shown.take(n + 1).drop_last() =~= shown.take(n));
            }
            put(
                &mut changed,
                &identity_key(&update.identity),
                status_dto(Some(&update.status)).to_json(),
            );
            self.shared.statuses.insert(update.identity, update.status);
        }
        assert(shown.take(shown.len() as int) =~= shown);
        Json::Object(changed)
    }

    /// Takes over samples.
    fn take_samples(&mut self, reports: Vec<SampleReport>)
        ensures
            final(self)@ == sampled(old(self)@, text::views(reports@)),
    {
        let ghost all = reports@;
        let ghost shown = text::views(all);
        let ghost start = self@;
        let ghost documents = report_documents(shown);
        let ghost updates = report_updates(shown);
        let mut list: Vec<SampleDto> = Vec::new();
        let mut news: Vec<StatusUpdate> = Vec::new();
        assert(documents.take(0).reverse() + start.shared.recent_samples =~= start.shared.recent_samples);
        assert(text::views(list@) =~= documents.take(0));
        assert(text::views(news@) =~= updates.take(0));
        for report in iter: reports
            invariant
                iter.seq() == all,
                shown == text::views(all),
                documents == report_documents(shown),
                updates == report_updates(shown),
                text::views(list@) == documents.take(iter.index()),
                text::views(news@) == updates.take(iter.index()),
                self@ == (WebModel {
                    shared: SharedModel {
                        recent_samples: documents.take(iter.index()).reverse()
                            + start.shared.recent_samples,
                        ..start.shared
                    },
                    ..start
                }),
        {
            let ghost n = iter.index();
            let ghost recent = self.shared.recent_samples@;
            let ghost listed = list@;
            let ghost noted = news@;
            let SampleReport { sample, status } = report;
            self.shared.recent_samples.push_front(sample_dto(&sample));
            list.push(sample_dto(&sample));
            news.push(StatusUpdate { identity: sample.identity, status });
            proof {
                let d = documents[n];
                assert(text::views(self.shared.recent_samples@) =~= seq![d] + text::views(recent));
                assert(documents.take(n + 1).reverse() =~= seq![d] + documents.take(n).reverse());
                assert(text::views(self.shared.recent_samples@) =~= documents.take(n + 1).reverse()
                    + start.shared.recent_samples);
                assert(text::views(list@) =~= text::views(listed).push(d));
                assert(documents.take(n + 1) =~= documents.take(n).push(d));
                assert(text::views(news@) =~= text::views(noted).push(updates[n]));
                assert(updates.take(n + 1) =~= updates.take(n).push(updates[n]));
            }
        }
        proof {
            assert(documents.take(documents.len() as int) =~= documents);
            assert(updates.take(updates.len() as int) =~= updates);
        }
        let ghost grown = self.shared.recent_samples@;
        if self.shared.recent_samples.len() > RECENT_SAMPLE_CAPACITY {
            self.shared.recent_samples.truncate(RECENT_SAMPLE_CAPACITY);
            assert(text::views(self.shared.recent_samples@) =~= text::views(grown).take(
                RECENT_SAMPLE_CAPACITY as int,
            ));
        }
        let changed = self.update_statuses(news);
        let mut out: Fields = Vec::new();
        put(&mut out, "type", Json::Text("samples".to_string()));
        put(&mut out, "samples", list_json(&list));
        put(&mut out, "statuses", changed);
        self.emit(Json::Object(out));
    }

    /// Takes over what discovery found.
    fn take_devices(
        &mut self,
        devices: Vec<DiscoveredDevice>,
        warnings: Vec<String>,
        now_ms: i64,
    )
        requires
            old(self)@.shared.has_room(warnings@.len()),
        ensures
            final(self)@ == applied(
                old(self)@,
                (WorkerModel::Devices {
                    devices: text::views(devices@),
                    warnings: text::views(warnings@),
                }),
                now_ms,
            ),
    {
        self.shared.devices = devices;
        let ghost found = self@;
        let ghost all = warnings@;
        let ghost shown = text::views(all);
        assert(shown.take(0) =~= Seq::empty());
        for warning in iter: warnings
            invariant
                iter.seq() == all,
                shown == text::views(all),
                found.shared.has_room(all.len()),
                self@ == warned(found, shown.take(iter.index()), now_ms),
        {
            proof {
                let n = iter.index();
                assert(shown.take(n + 1).drop_last() =~= shown.take(n));
                lemma_warned(found, shown.take(n), now_ms);
            }
            self.tell(LogLevel::Warning, warning, now_ms);
        }
        proof {
            assert(shown.take(shown.len() as int) =~= shown);
            lemma_warned(found, shown, now_ms);
        }
        let list = devices_json(&self.shared.devices);
        self.emit(event("devices", "devices", list));
    }

    /// Takes over where the republisher stands.
    fn take_lifecycle(&mut self, lifecycle: RepublisherLifecycle, now_ms: i64)
        requires
            fits(old(self)@, WorkerModel::Lifecycle(lifecycle@)),
        ensures
            final(self)@ == applied(old(self)@, WorkerModel::Lifecycle(lifecycle@), now_ms),
    {
        match &lifecycle {
            RepublisherLifecycle::Failed(error) => {
                let mut message = "Republisher failed: ".to_string();
                message.append(error);
                self.tell(LogLevel::Error, message, now_ms);
            },
            _ => {},
        }
        let document = lifecycle_dto(&lifecycle);
        self.shared.lifecycle = lifecycle;
        self.emit(event("lifecycle", "lifecycle", document));
    }

    /// Applies a worker event: what it changes, and what is told of it.
    #[verifier::spinoff_prover]
    #[verifier::rlimit(40)]
    pub fn apply_event(&mut self, e: WorkerEvent, now_ms: i64) -> (r: AfterEvent)
        requires
            fits(old(self)@, e@),
        ensures
            final(self)@ == applied(old(self)@, e@, now_ms),
            old(self)@.shared.well_formed() ==> final(self)@.shared.well_formed(),
            r == left_to_do(e@),
    {
        proof {
            if self@.shared.well_formed() {
                lemma_applied(self@, e@, now_ms);
            }
        }
        match e {
            WorkerEvent::Log(level, message) => {
                self.tell(level, message, now_ms);
            },
            WorkerEvent::Devices { devices, warnings } => {
                self.take_devices(devices, warnings, now_ms);
            },
            WorkerEvent::Points(points) => {
                self.shared.browsed = points;
                let list = browsed_json(&self.shared.browsed);
                self.emit(event("browsed", "points", list));
            },
            WorkerEvent::ScanProgress { current, total } => {
                self.shared.scan_progress = Some((current, total));
                self.emit(progress(current, total));
            },
            WorkerEvent::BulkTagImport { points, added, updated } => {
                self.shared.config.points = points;
                self.shared.scan_progress = None;
                return AfterEvent::Imported { added, updated };
            },
            WorkerEvent::Samples(reports) => {
                self.take_samples(reports);
            },
            WorkerEvent::Failures(updates) => {
                let changed = self.update_statuses(updates);
                self.emit(event("statuses", "statuses", changed));
            },
            WorkerEvent::PublishStatus { published } => {
                self.shared.published_total = self.shared.published_total + published;
                let total: u64 = self.shared.published_total as u64;
                self.emit(event("stats", "published_total", Json::Uint(total)));
            },
            WorkerEvent::PointPublish(update) => {
                let mut updates: Vec<StatusUpdate> = Vec::new();
                updates.push(update);
                assert(text::views(updates@) =~= seq![update@]);
                let changed = self.update_statuses(updates);
                self.emit(event("statuses", "statuses", changed));
            },
            WorkerEvent::Lifecycle(lifecycle) => {
                self.take_lifecycle(lifecycle, now_ms);
            },
            WorkerEvent::Finished(message) => {
                self.tell(LogLevel::Info, message, now_ms);
            },
        }
        AfterEvent::Done
    }

    /// Ends an import, once the configuration was saved or could not be.
    pub fn finish_import(
        &mut self,
        added: usize,
        updated: usize,
        outcome: SaveOutcome,
        facts: &Vec<PointFacts>,
        now_ms: i64,
    )
        requires
            old(self)@.shared.has_room(2),
            facts@.len() == old(self)@.shared.config.points.len(),
        ensures
            final(self)@ == import_finished(
                old(self)@,
                added,
                updated,
                outcome@,
                text::views(facts@),
                now_ms,
            ),
            old(self)@.shared.well_formed() ==> final(self)@.shared.well_formed(),
    {
        let _saved = self.save_config(outcome, now_ms);
        let mut message = "Bulk import: ".to_string();
        message.append(&decimal_text(added as u64));
        message.append(" added, ");
        message.append(&decimal_text(updated as u64));
        message.append(" updated");
        self.set_status(LogLevel::Info, &message, now_ms);
        self.emit_points(facts);
    }
}

/// The last of the items, up to a number.
pub open spec fn newest<T>(s: Seq<T>, n: nat) -> Seq<T> {
    if s.len() > n {
        s.skip(s.len() - n)
    } else {
        s
    }
}

/// The log keeps the last lines: after a line was logged it holds the newest of the lines that were
/// there and the new one, the new one has the next number, numbers run without a gap, and nothing
/// but the log has changed.
pub proof fn law_log_ring(s: SharedModel, level: LogLevel, message: Seq<char>, now_ms: i64)
    requires
        s.well_formed(),
        s.has_room(1),
    ensures
        ({
            let t = logged(s, level, message, now_ms);
            let record = next_record(s, level, message, now_ms);
            &&& t.logs == newest(s.logs.push(record), LOG_CAPACITY as nat)
            &&& t.logs.last() == record
            &&& record.seq == s.log_seq + 1
            &&& record.level == level_name(level)
            &&& record.message == message
            &&& t.log_seq == s.log_seq + 1
            &&& t.well_formed()
            &&& t == (SharedModel { logs: t.logs, log_seq: t.log_seq, ..s })
        }),
{
    lemma_logged(s, level, message, now_ms);
    let t = logged(s, level, message, now_ms);
    let record = next_record(s, level, message, now_ms);
    assert(t.logs =~= newest(s.logs.push(record), LOG_CAPACITY as nat));
}

/// Samples are kept newest first, and no more than the capacity of them: after a batch its last
/// sample stands first, and what was kept before follows the batch.
pub proof fn law_recent_samples(w: WebModel, reports: Seq<ReportModel>, i: int)
    requires
        w.shared.well_formed(),
        0 <= i < RECENT_SAMPLE_CAPACITY,
        i < reports.len() + w.shared.recent_samples.len(),
    ensures
        ({
            let after = sampled(w, reports).shared.recent_samples;
            &&& after.len() <= RECENT_SAMPLE_CAPACITY
            &&& i < after.len()
            &&& after[i] == if i < reports.len() {
                dto::sample_json(reports[reports.len() - 1 - i].sample)
            } else {
                w.shared.recent_samples[i - reports.len()]
            }
        }),
{
}

/// What is told of a publication stands under the key that the browser has for the point, also
/// where the point's device was given another name since.
pub proof fn law_publish_key_joins(
    w: WebModel,
    update: UpdateModel,
    index: int,
    point: model::PointModel,
    facts: model::FactsModel,
    status: Option<model::StatusModel>,
    now_ms: i64,
)
    requires
        facts.identity.addressing == update.identity.addressing,
    ensures
        ({
            let sent = applied(w, WorkerModel::PointPublish(update), now_ms).sent.last();
            let shown = dto::point_json(index, point, facts, status);
            &&& sent is Object
            &&& sent->Object_0["statuses"@] is Object
            &&& shown is Object
            &&& shown->Object_0["identity"@] is Text
            &&& sent->Object_0["statuses"@]->Object_0.dom().contains(
                shown->Object_0["identity"@]->Text_0,
            )
            &&& sent->Object_0["statuses"@]->Object_0[shown->Object_0["identity"@]->Text_0]
                == dto::point_status_json(Some(update.status))
        }),
{
    let updates = seq![update];
    assert(updates.drop_last() =~= Seq::empty());
    assert(updates.last() == update);
    reveal_with_fuel(update_members, 2);
    assert(facts.identity.addressing =~= update.identity.addressing);
    let key = dto::identity_text(facts.identity);
    assert(key == dto::identity_text(update.identity));
    lemma_identity_member(index, point, facts, status);
    reveal_strlit("type");
    reveal_strlit("statuses");
    assert("type"@ != "statuses"@) by {
        assert("type"@.len() != "statuses"@.len());
    }
}

/// The document of a point holds its key.
proof fn lemma_identity_member(
    index: int,
    point: model::PointModel,
    facts: model::FactsModel,
    status: Option<model::StatusModel>,
)
    ensures
        ({
            let shown = dto::point_json(index, point, facts, status);
            &&& shown is Object
            &&& shown->Object_0["identity"@] == JsonModel::Text(
                dto::identity_text(facts.identity),
            )
        }),
{
    reveal_strlit("identity");
    reveal_strlit("enabled");
    reveal_strlit("device_key");
    reveal_strlit("tag_path");
    reveal_strlit("poll_interval_secs");
    reveal_strlit("addressing");
    reveal_strlit("addressing_display");
    reveal_strlit("display_name");
    reveal_strlit("topic");
    reveal_strlit("status");
    assert("identity"@[0] == 'i');
    assert("enabled"@[0] == 'e');
    assert("device_key"@[0] == 'd');
    assert("tag_path"@[0] == 't');
    assert("poll_interval_secs"@[0] == 'p');
    assert("addressing"@[0] == 'a');
    assert("addressing_display"@[0] == 'a');
    assert("display_name"@[0] == 'd');
    assert("topic"@[0] == 't');
    assert("status"@[0] == 's');
}

/// News of one point leaves the statuses of all others as they were.
pub proof fn law_statuses_of_others(
    w: WebModel,
    update: UpdateModel,
    other: model::IdentityModel,
    now_ms: i64,
)
    requires
        other != update.identity,
    ensures
        ({
            let after = applied(w, WorkerModel::PointPublish(update), now_ms).shared.statuses;
            &&& status_of(after, update.identity) == Some(update.status)
            &&& status_of(after, other) == status_of(w.shared.statuses, other)
        }),
{
    let updates = seq![update];
    assert(updates.drop_last() =~= Seq::empty());
    assert(updates.last() == update);
    reveal_with_fuel(updated, 2);
}

/// What an event tells comes after everything that was told before; only an import waits with its
/// news until it was saved.
pub proof fn law_events_follow(w: WebModel, e: WorkerModel, now_ms: i64)
    requires
        fits(w, e),
    ensures
        ({
            let after = applied(w, e, now_ms).sent;
            &&& w.sent.len() <= after.len()
            &&& after.take(w.sent.len() as int) == w.sent
            &&& e !is BulkTagImport ==> w.sent.len() < after.len()
        }),
{
    match e {
        WorkerModel::Devices { devices, warnings } => {
            let found = WebModel { shared: SharedModel { devices, ..w.shared }, ..w };
            lemma_warned_sent(found, warnings, now_ms);
        },
        _ => {},
    }
    assert(applied(w, e, now_ms).sent.take(w.sent.len() as int) =~= w.sent);
}

/// Telling of warnings keeps what was told before.
proof fn lemma_warned_sent(w: WebModel, warnings: Seq<Seq<char>>, now_ms: i64)
    ensures
        ({
            let after = warned(w, warnings, now_ms).sent;
            &&& after.len() == w.sent.len() + warnings.len()
            &&& after.take(w.sent.len() as int) == w.sent
        }),
    decreases warnings.len(),
{
    if warnings.len() > 0 {
        lemma_warned_sent(w, warnings.drop_last(), now_ms);
        let before = warned(w, warnings.drop_last(), now_ms).sent;
        let after = warned(w, warnings, now_ms).sent;
        assert(after.take(w.sent.len() as int) =~= before.take(w.sent.len() as int));
    } else {
        assert(w.sent.take(w.sent.len() as int) =~= w.sent);
    }
}

/// No event but an import touches the configuration, and an import changes its points alone.
pub proof fn law_events_keep_config(w: WebModel, e: WorkerModel, now_ms: i64)
    ensures
        ({
            let after = applied(w, e, now_ms).shared.config;
            match e {
                WorkerModel::BulkTagImport { points, added, updated } => after == (
                config::ConfigModel { points, ..w.shared.config }),
                _ => after == w.shared.config,
            }
        }),
{
    match e {
        WorkerModel::Devices { devices, warnings } => {
            let found = WebModel { shared: SharedModel { devices, ..w.shared }, ..w };
            lemma_warned_config(found, warnings, now_ms);
        },
        _ => {},
    }
}

/// Telling of warnings keeps the configuration.
proof fn lemma_warned_config(w: WebModel, warnings: Seq<Seq<char>>, now_ms: i64)
    ensures
        warned(w, warnings, now_ms).shared.config == w.shared.config,
    decreases warnings.len(),
{
    if warnings.len() > 0 {
        lemma_warned_config(w, warnings.drop_last(), now_ms);
    }
}

/// The status line is always the last thing that was logged when it was set.
pub proof fn law_status_line_is_logged(
    w: WebModel,
    level: LogLevel,
    message: Seq<char>,
    now_ms: i64,
)
    ensures
        ({
            let after = status_set(w, level, message, now_ms).shared;
            &&& after.status_line == message
            &&& after.logs.last().message == message
            &&& after.logs.last().level == level_name(level)
        }),
{
}

/// No secret reaches a browser: two configurations that differ in the secrets' values alone look
/// the same.
pub proof fn law_secrets_stay_hidden(
    w: WebModel,
    other: config::ConfigModel,
    facts: Seq<model::FactsModel>,
)
    requires
        dto::without_secrets(other) == dto::without_secrets(w.shared.config),
        (other.mqtt.password is Some) == (w.shared.config.mqtt.password is Some),
        (other.mqtt.client_key_passphrase is Some) == (
        w.shared.config.mqtt.client_key_passphrase is Some),
    ensures
        dto::redacted_json(other) == dto::redacted_json(w.shared.config),
        ({
            let v = WebModel { shared: SharedModel { config: other, ..w.shared }, ..w };
            snapshot_document(v, facts) == snapshot_document(w, facts)
        }),
{
    let v = WebModel { shared: SharedModel { config: other, ..w.shared }, ..w };
    let a = dto::without_secrets(other);
    let b = dto::without_secrets(w.shared.config);
    assert(a.points == other.points && b.points == w.shared.config.points);
    assert(a.protocol == other.protocol && b.protocol == w.shared.config.protocol);
    assert(points_document(v.shared, facts) == points_document(w.shared, facts)) by {
        let n = w.shared.config.points.len();
        let f = |i: int|
            dto::point_json(
                i,
                v.shared.config.points[i],
                facts[i],
                status_of(v.shared.statuses, facts[i].identity),
            );
        let g = |i: int|
            dto::point_json(
                i,
                w.shared.config.points[i],
                facts[i],
                status_of(w.shared.statuses, facts[i].identity),
            );
        assert(Seq::new(n, f) =~= Seq::new(n, g));
    }
}

/// What is told of devices is what the state holds afterwards: a browser that follows the news
/// knows what a new one reads.
#[verifier::spinoff_prover]
pub proof fn law_device_news_agree_with_state(
    w: WebModel,
    devices: Seq<model::DeviceModel>,
    warnings: Seq<Seq<char>>,
    now_ms: i64,
)
    requires
        fits(w, WorkerModel::Devices { devices, warnings }),
    ensures
        ({
            let after = applied(w, WorkerModel::Devices { devices, warnings }, now_ms);
            after.shared.devices == devices && after.sent.last() == event_json(
                "devices"@,
                "devices"@,
                devices_document(after.shared.devices),
            )
        }),
{
    let found = WebModel { shared: SharedModel { devices, ..w.shared }, ..w };
    lemma_warned(found, warnings, now_ms);
}

/// What is told of browsed points is what the state holds afterwards.
#[verifier::spinoff_prover]
pub proof fn law_browsed_news_agree_with_state(
    w: WebModel,
    browsed: Seq<model::BrowsedModel>,
    now_ms: i64,
)
    ensures
        ({
            let after = applied(w, WorkerModel::Points(browsed), now_ms);
            after.shared.browsed == browsed && after.sent.last() == event_json(
                "browsed"@,
                "points"@,
                browsed_list(after.shared.browsed),
            )
        }),
{
}

/// What is told of the republisher's lifecycle is what the state holds afterwards.
#[verifier::spinoff_prover]
pub proof fn law_lifecycle_news_agree_with_state(
    w: WebModel,
    lifecycle: model::LifecycleModel,
    now_ms: i64,
)
    ensures
        ({
            let after = applied(w, WorkerModel::Lifecycle(lifecycle), now_ms);
            after.shared.lifecycle == lifecycle && after.sent.last() == event_json(
                "lifecycle"@,
                "lifecycle"@,
                dto::lifecycle_json(after.shared.lifecycle),
            )
        }),
{
}

/// What is told of the publications is what the state holds afterwards: all that were made so far.
#[verifier::spinoff_prover]
pub proof fn law_publish_news_agree_with_state(w: WebModel, published: usize, now_ms: i64)
    requires
        fits(w, WorkerModel::PublishStatus { published }),
    ensures
        ({
            let after = applied(w, WorkerModel::PublishStatus { published }, now_ms);
            after.shared.published_total == w.shared.published_total + published
                && after.sent.last() == event_json(
                "stats"@,
                "published_total"@,
                JsonModel::Number(after.shared.published_total as int),
            )
        }),
{
}

/// Log lines are numbered without a gap: an event moves the number on by the lines that it logs.
pub proof fn law_lines_are_numbered_on(w: WebModel, e: WorkerModel, now_ms: i64)
    requires
        fits(w, e),
    ensures
        applied(w, e, now_ms).shared.log_seq == w.shared.log_seq + event_lines(e),
{
    match e {
        WorkerModel::Devices { devices, warnings } => {
            let found = WebModel { shared: SharedModel { devices, ..w.shared }, ..w };
            lemma_warned(found, warnings, now_ms);
        },
        _ => {},
    }
}

} // verus!
