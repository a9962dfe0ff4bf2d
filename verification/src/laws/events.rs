//! Laws of what worker events do.

use vstd::prelude::*;

use crate::config;
use crate::config::AppConfig;
use crate::json::{Json, JsonModel};
use crate::laws::documents::{lemma_log_news, lemma_news};
use crate::laws::{
    counts, known, member, one_more_line, same_but_status, says, sends_on, status_said, tells_line,
};
use crate::model;
use crate::model::{
    Capabilities, DiscoveredDevice, DiscoveredPoint, LogLevel, PointConfig, PointFacts,
    RepublisherLifecycle,
};
use crate::text;
use crate::web::dto;
use crate::web::dto::lifecycle_dto;
use crate::web::state;
use crate::web::state::{
    level_str, push_log, save_step, write_outcome, AfterEvent, LogRecord, SampleReport,
    SaveOutcome, SaveStep, Shared, StatusUpdate, WebState, WorkerEvent,
};

verus! {

/// The name of a level.
pub open spec fn named(level: LogLevel) -> Seq<char> {
    match level {
        LogLevel::Info => "info"@,
        LogLevel::Warning => "warning"@,
        LogLevel::Error => "error"@,
    }
}

/// Each level has its name.
pub proof fn law_levels(level: LogLevel, r: &'static str)
    requires
        call_ensures(level_str, (level,), r),
    ensures
        r@ == named(level),
{
}

/// A line that is logged is the last one, has the next number, and is given back; nothing but the
/// log changes.
pub proof fn law_logging(
    shared: &mut Shared,
    level: LogLevel,
    message: String,
    now_ms: i64,
    r: LogRecord,
)
    requires
        call_ensures(push_log, (shared, level, message, now_ms), r),
        old(shared)@.log_seq < u64::MAX,
    ensures
        one_more_line(old(shared)@, final(shared)@, named(level), message@, now_ms),
        final(shared)@.logs.last() == r@,
        same_but_status(old(shared)@, final(shared)@),
        final(shared)@.status_line == old(shared)@.status_line,
{
    assert(final(shared)@.logs.drop_last() =~= if old(shared)@.logs.len() >= 500 {
        old(shared)@.logs.skip(1)
    } else {
        old(shared)@.logs
    });
}

/// Setting a status says it in the status line, in the log and to the browsers, and changes nothing
/// else.
pub proof fn law_setting_a_status(w: &mut WebState, level: LogLevel, message: &str, now_ms: i64)
    requires
        call_ensures(WebState::set_status, (w, level, message, now_ms), ()),
        old(w)@.shared.log_seq < u64::MAX,
    ensures
        sends_on(old(w)@.sent, final(w)@.sent, 1),
        status_said(
            old(w)@.shared,
            final(w)@.shared,
            final(w)@.sent.last(),
            named(level),
            message@,
            now_ms,
        ),
        same_but_status(old(w)@.shared, final(w)@.shared),
        final(w)@ == (state::WebModel {
            shared: final(w)@.shared,
            sent: final(w)@.sent,
            ..old(w)@
        }),
{
    lemma_status(old(w)@, level, message@, now_ms);
}

/// What setting a status does.
pub proof fn lemma_status(w: state::WebModel, level: LogLevel, message: Seq<char>, now_ms: i64)
    requires
        w.shared.log_seq < u64::MAX,
    ensures
        ({
            let v = state::status_set(w, level, message, now_ms);
            &&& sends_on(w.sent, v.sent, 1)
            &&& status_said(w.shared, v.shared, v.sent.last(), named(level), message, now_ms)
            &&& same_but_status(w.shared, v.shared)
            &&& v == (state::WebModel { shared: v.shared, sent: v.sent, ..w })
        }),
{
    let v = state::status_set(w, level, message, now_ms);
    lemma_log_news(v.shared.logs.last(), message);
    assert(v.shared.logs.drop_last() =~= if w.shared.logs.len() >= 500 {
        w.shared.logs.skip(1)
    } else {
        w.shared.logs
    });
    assert(v.sent.take(w.sent.len() as int) =~= w.sent);
}

/// What telling of a line does.
proof fn lemma_told(w: state::WebModel, level: LogLevel, message: Seq<char>, now_ms: i64)
    requires
        w.shared.log_seq < u64::MAX,
    ensures
        ({
            let v = state::told(w, level, message, now_ms);
            &&& sends_on(w.sent, v.sent, 1)
            &&& one_more_line(w.shared, v.shared, named(level), message, now_ms)
            &&& tells_line(v.sent.last(), v.shared.logs.last())
            &&& same_but_status(w.shared, v.shared)
            &&& v.shared.status_line == w.shared.status_line
            &&& v == (state::WebModel { shared: v.shared, sent: v.sent, ..w })
        }),
{
    let v = state::told(w, level, message, now_ms);
    lemma_log_news(v.shared.logs.last(), message);
    assert(v.shared.logs.drop_last() =~= if w.shared.logs.len() >= 500 {
        w.shared.logs.skip(1)
    } else {
        w.shared.logs
    });
    assert(v.sent.take(w.sent.len() as int) =~= w.sent);
}

/// A document that is sent goes out last, and changes nothing else.
pub proof fn law_sending(w: &mut WebState, value: Json)
    requires
        call_ensures(WebState::emit, (w, value), ()),
    ensures
        sends_on(old(w)@.sent, final(w)@.sent, 1),
        final(w)@.sent.last() == value@,
        final(w)@ == (state::WebModel { sent: final(w)@.sent, ..old(w)@ }),
{
    assert(final(w)@.sent.take(old(w)@.sent.len() as int) =~= old(w)@.sent);
}

/// What a worker logs, and the end of a job, is logged and told as it is, and changes nothing else.
pub proof fn law_log_event(
    w: &mut WebState,
    e: WorkerEvent,
    now_ms: i64,
    r: AfterEvent,
    level: LogLevel,
    message: String,
)
    requires
        call_ensures(WebState::apply_event, (w, e, now_ms), r),
        old(w)@.shared.log_seq < u64::MAX,
        e == WorkerEvent::Log(level, message) || e == WorkerEvent::Finished(message) && level
            == LogLevel::Info,
    ensures
        r == AfterEvent::Done,
        sends_on(old(w)@.sent, final(w)@.sent, 1),
        one_more_line(old(w)@.shared, final(w)@.shared, named(level), message@, now_ms),
        tells_line(final(w)@.sent.last(), final(w)@.shared.logs.last()),
        same_but_status(old(w)@.shared, final(w)@.shared),
        final(w)@.shared.status_line == old(w)@.shared.status_line,
        final(w)@ == (state::WebModel {
            shared: final(w)@.shared,
            sent: final(w)@.sent,
            ..old(w)@
        }),
{
    lemma_told(old(w)@, level, message@, now_ms);
}

/// What discovery found replaces the devices, and the browsers are told of all of them last. Every
/// warning is logged in its order and told of. Nothing else changes.
pub proof fn law_devices_event(
    w: &mut WebState,
    devices: Vec<DiscoveredDevice>,
    warnings: Vec<String>,
    now_ms: i64,
    r: AfterEvent,
    i: int,
)
    requires
        call_ensures(
            WebState::apply_event,
            (w, (WorkerEvent::Devices { devices, warnings }), now_ms),
            r,
        ),
        old(w)@.shared.log_seq + warnings@.len() <= u64::MAX,
    ensures
        r == AfterEvent::Done,
        final(w)@.shared.devices == text::views(devices@),
        final(w)@.shared.log_seq == old(w)@.shared.log_seq + warnings@.len(),
        sends_on(old(w)@.sent, final(w)@.sent, warnings@.len() as int + 1),
        says(final(w)@.sent.last(), "type"@, "devices"@),
        member(final(w)@.sent.last(), "devices"@) matches Some(JsonModel::List(list)) && list.len()
            == devices@.len() && (0 <= i < list.len() ==> list[i] == dto::device_json(
            i,
            devices@[i]@,
        )),
        0 <= i < warnings@.len() ==> {
            let sent = final(w)@.sent[old(w)@.sent.len() + i];
            &&& says(sent, "type"@, "log"@)
            &&& member(sent, "record"@) matches Some(record) && says(
                record,
                "message"@,
                warnings@[i]@,
            ) && says(record, "level"@, "warning"@) && counts(
                record,
                "seq"@,
                old(w)@.shared.log_seq + i + 1,
            )
        },
        0 <= i < warnings@.len() && i < 500 ==> {
            let line = final(w)@.shared.logs[final(w)@.shared.logs.len() - 1 - i];
            line.message == warnings@[warnings@.len() - 1 - i]@ && line.level == "warning"@
        },
        same_but_status(
            (state::SharedModel { devices: final(w)@.shared.devices, ..old(w)@.shared }),
            final(w)@.shared,
        ),
        final(w)@.shared.status_line == old(w)@.shared.status_line,
        final(w)@ == (state::WebModel {
            shared: final(w)@.shared,
            sent: final(w)@.sent,
            ..old(w)@
        }),
{
    let shown = text::views(warnings@);
    let found = state::WebModel {
        shared: state::SharedModel { devices: text::views(devices@), ..old(w)@.shared },
        ..old(w)@
    };
    lemma_warned(found, shown, now_ms, i, shown.len() - 1 - i);
    reveal_strlit("type");
    reveal_strlit("devices");
    assert("type"@.len() != "devices"@.len());
    lemma_news("devices"@, "devices"@, state::devices_document(text::views(devices@)));
    let v = state::warned(found, shown, now_ms);
    assert(final(w)@.sent == v.sent.push(final(w)@.sent.last()));
    assert(final(w)@.sent.take(old(w)@.sent.len() as int) =~= v.sent.take(
        old(w)@.sent.len() as int,
    ));
    if 0 <= i < warnings@.len() {
        assert(final(w)@.sent[old(w)@.sent.len() + i] == v.sent[old(w)@.sent.len() + i]);
    }
}

/// What telling of warnings does.
proof fn lemma_warned(
    w: state::WebModel,
    warnings: Seq<Seq<char>>,
    now_ms: i64,
    i: int,
    k: int,
)
    requires
        w.shared.log_seq + warnings.len() <= u64::MAX,
    ensures
        ({
            let v = state::warned(w, warnings, now_ms);
            &&& v.shared.log_seq == w.shared.log_seq + warnings.len()
            &&& sends_on(w.sent, v.sent, warnings.len() as int)
            &&& v.shared.logs.len() >= if warnings.len() < 500 {
                warnings.len() as int
            } else {
                500
            }
            &&& same_but_status(w.shared, v.shared)
            &&& v.shared.status_line == w.shared.status_line
            &&& v == (state::WebModel { shared: v.shared, sent: v.sent, ..w })
            &&& 0 <= i < warnings.len() ==> {
                let sent = v.sent[w.sent.len() + i];
                &&& says(sent, "type"@, "log"@)
                &&& member(sent, "record"@) matches Some(record) && says(
                    record,
                    "message"@,
                    warnings[i],
                ) && says(record, "level"@, "warning"@) && counts(
                    record,
                    "seq"@,
                    w.shared.log_seq + i + 1,
                )
            }
            &&& 0 <= k < warnings.len() && warnings.len() - 1 - k < 500 ==> {
                let line = v.shared.logs[v.shared.logs.len() - (warnings.len() - k)];
                line.message == warnings[k] && line.level == "warning"@
            }
        }),
    decreases warnings.len(),
{
    if warnings.len() > 0 {
        let rest = warnings.drop_last();
        lemma_warned(w, rest, now_ms, i, k);
        let u = state::warned(w, rest, now_ms);
        let v = state::warned(w, warnings, now_ms);
        lemma_told(u, LogLevel::Warning, warnings.last(), now_ms);
        assert(v == state::told(u, LogLevel::Warning, warnings.last(), now_ms));
        assert(v.sent.take(w.sent.len() as int) =~= u.sent.take(w.sent.len() as int));
        if 0 <= i < rest.len() {
            assert(v.sent[w.sent.len() + i] == u.sent[w.sent.len() + i]);
        }
        let n = u.shared.logs.len();
        if 0 <= k < rest.len() && warnings.len() - 1 - k < 500 {
            let back = rest.len() - k;
            let old_line = u.shared.logs[n - back];
            if n >= 500 {
                assert(v.shared.logs.drop_last()[n - 1 - back] == u.shared.logs.skip(1)[n - 1
                    - back]);
            } else {
                assert(v.shared.logs.drop_last()[n - back] == u.shared.logs[n - back]);
            }
        }
    } else {
        assert(w.sent.take(w.sent.len() as int) =~= w.sent);
    }
}

/// What browsing found replaces the browsed points, and the browsers are told of all of them.
/// Nothing else changes.
pub proof fn law_browsed_event(
    w: &mut WebState,
    points: Vec<DiscoveredPoint>,
    now_ms: i64,
    r: AfterEvent,
    i: int,
)
    requires
        call_ensures(WebState::apply_event, (w, WorkerEvent::Points(points), now_ms), r),
    ensures
        r == AfterEvent::Done,
        final(w)@ == (state::WebModel {
            shared: state::SharedModel { browsed: text::views(points@), ..old(w)@.shared },
            sent: final(w)@.sent,
            ..old(w)@
        }),
        sends_on(old(w)@.sent, final(w)@.sent, 1),
        says(final(w)@.sent.last(), "type"@, "browsed"@),
        member(final(w)@.sent.last(), "points"@) matches Some(JsonModel::List(list)) && list.len()
            == points@.len() && (0 <= i < list.len() ==> list[i] == dto::browsed_json(
            i,
            points@[i]@,
        )),
{
    reveal_strlit("type");
    reveal_strlit("points");
    assert("type"@.len() != "points"@.len());
    assert(final(w)@.sent.take(old(w)@.sent.len() as int) =~= old(w)@.sent);
}

/// How far a scan is is kept and told. Nothing else changes.
pub proof fn law_progress_event(
    w: &mut WebState,
    current: usize,
    total: usize,
    now_ms: i64,
    r: AfterEvent,
)
    requires
        call_ensures(
            WebState::apply_event,
            (w, (WorkerEvent::ScanProgress { current, total }), now_ms),
            r,
        ),
    ensures
        r == AfterEvent::Done,
        final(w)@ == (state::WebModel {
            shared: state::SharedModel {
                scan_progress: Some((current, total)),
                ..old(w)@.shared
            },
            sent: final(w)@.sent,
            ..old(w)@
        }),
        sends_on(old(w)@.sent, final(w)@.sent, 1),
        says(final(w)@.sent.last(), "type"@, "scan_progress"@),
        counts(final(w)@.sent.last(), "current"@, current as int),
        counts(final(w)@.sent.last(), "total"@, total as int),
{
    lemma_progress(current, total);
    assert(final(w)@.sent.take(old(w)@.sent.len() as int) =~= old(w)@.sent);
}

/// What is sent of a scan's progress.
pub proof fn lemma_progress(current: usize, total: usize)
    ensures
        says(state::progress_event(current, total), "type"@, "scan_progress"@),
        counts(state::progress_event(current, total), "current"@, current as int),
        counts(state::progress_event(current, total), "total"@, total as int),
{
    reveal_strlit("type");
    reveal_strlit("current");
    reveal_strlit("total");
    assert("type"@.len() == 4);
    assert("current"@.len() == 7);
    assert("total"@.len() == 5);
}

/// An import replaces the configured points with exactly those it brings, ends the scan, and is
/// left to be saved. Nothing else changes, and nothing is told yet.
pub proof fn law_import_event(
    w: &mut WebState,
    points: Vec<PointConfig>,
    added: usize,
    updated: usize,
    now_ms: i64,
    r: AfterEvent,
)
    requires
        call_ensures(
            WebState::apply_event,
            (w, (WorkerEvent::BulkTagImport { points, added, updated }), now_ms),
            r,
        ),
    ensures
        r == (AfterEvent::Imported { added, updated }),
        final(w)@.shared.config.points == text::views(points@),
        final(w)@.shared.scan_progress is None,
        final(w)@ == (state::WebModel {
            shared: state::SharedModel {
                config: config::ConfigModel {
                    points: final(w)@.shared.config.points,
                    ..old(w)@.shared.config
                },
                scan_progress: None,
                ..old(w)@.shared
            },
            ..old(w)@
        }),
{
}

/// What updates do to one point's status: the last update that names it decides, and where none
/// does the status stays as it was.
#[verifier::spinoff_prover]
#[verifier::rlimit(40)]
proof fn lemma_updated(
    statuses: Map<model::IdentityModel, model::StatusModel>,
    updates: Seq<state::UpdateModel>,
    identity: model::IdentityModel,
)
    ensures
        (forall|i: int| 0 <= i < updates.len() ==> (#[trigger] updates[i]).identity != identity)
            ==> known(state::updated(statuses, updates), identity) == known(statuses, identity),
        forall|i: int|
            0 <= i < updates.len() && (#[trigger] updates[i]).identity == identity && (forall|j: int|
                i < j < updates.len() ==> (#[trigger] updates[j]).identity != identity) ==> known(
                state::updated(statuses, updates),
                identity,
            ) == Some(updates[i].status),
    decreases updates.len(),
{
    if updates.len() > 0 {
        let rest = updates.drop_last();
        lemma_updated(statuses, rest, identity);
        let n = updates.len() - 1;
        assert(updates.last() == updates[n]);
        if forall|i: int| 0 <= i < updates.len() ==> (#[trigger] updates[i]).identity != identity {
            assert forall|i: int| 0 <= i < rest.len() implies (#[trigger] rest[i]).identity
                != identity by {
                assert(updates[i] == rest[i]);
            }
            assert(updates[n].identity != identity);
        }
        assert forall|i: int|
            0 <= i < updates.len() && (#[trigger] updates[i]).identity == identity && (forall|j: int|
                i < j < updates.len() ==> (#[trigger] updates[j]).identity != identity) implies known(
            state::updated(statuses, updates),
            identity,
        ) == Some(updates[i].status) by {
            if i < n {
                assert(updates[n].identity != identity);
                assert(rest[i] == updates[i]);
                assert forall|j: int| i < j < rest.len() implies (#[trigger] rest[j]).identity
                    != identity by {
                    assert(updates[j] == rest[j]);
                }
            }
        }
    }
}

/// What is sent of updates holds under each named point's key the status of the last update with
/// that key.
#[verifier::spinoff_prover]
#[verifier::rlimit(40)]
proof fn lemma_members(updates: Seq<state::UpdateModel>, i: int)
    requires
        0 <= i < updates.len(),
        forall|j: int|
            i < j < updates.len() ==> dto::identity_text((#[trigger] updates[j]).identity)
                != dto::identity_text(updates[i].identity),
    ensures
        state::update_members(updates).dom().contains(dto::identity_text(updates[i].identity)),
        state::update_members(updates)[dto::identity_text(updates[i].identity)]
            == dto::point_status_json(Some(updates[i].status)),
    decreases updates.len(),
{
    let n = updates.len() - 1;
    if i < n {
        let rest = updates.drop_last();
        assert(updates[n] == updates.last());
        assert forall|j: int| i < j < rest.len() implies dto::identity_text(
            (#[trigger] rest[j]).identity,
        ) != dto::identity_text(rest[i].identity) by {
            assert(rest[j] == updates[j]);
        }
        lemma_members(rest, i);
    }
}

/// What is sent of updates holds nothing under any other key.
proof fn lemma_only_members(updates: Seq<state::UpdateModel>, key: Seq<char>)
    requires
        forall|j: int|
            0 <= j < updates.len() ==> dto::identity_text((#[trigger] updates[j]).identity) != key,
    ensures
        !state::update_members(updates).dom().contains(key),
    decreases updates.len(),
{
    if updates.len() > 0 {
        let rest = updates.drop_last();
        assert(updates[updates.len() - 1] == updates.last());
        assert forall|j: int| 0 <= j < rest.len() implies dto::identity_text(
            (#[trigger] rest[j]).identity,
        ) != key by {
            assert(rest[j] == updates[j]);
        }
        lemma_only_members(rest, key);
    }
}

/// Every batch of samples or failures is told, an empty one too, and only of the points that it
/// names.
pub proof fn law_only_named_points_are_told(
    w: &mut WebState,
    e: WorkerEvent,
    now_ms: i64,
    r: AfterEvent,
    key: Seq<char>,
)
    requires
        call_ensures(WebState::apply_event, (w, e, now_ms), r),
        e is Samples || e is Failures,
        e matches WorkerEvent::Samples(reports) ==> forall|k: int|
            0 <= k < reports@.len() ==> dto::identity_text(
                (#[trigger] reports@[k]).sample@.identity,
            ) != key,
        e matches WorkerEvent::Failures(updates) ==> forall|k: int|
            0 <= k < updates@.len() ==> dto::identity_text((#[trigger] updates@[k]).identity@)
                != key,
    ensures
        sends_on(old(w)@.sent, final(w)@.sent, 1),
        member(final(w)@.sent.last(), "statuses"@) is Some,
        member(member(final(w)@.sent.last(), "statuses"@)->Some_0, key) is None,
{
    reveal_strlit("type");
    reveal_strlit("samples");
    reveal_strlit("statuses");
    assert("type"@.len() == 4);
    assert("samples"@.len() == 7);
    assert("statuses"@.len() == 8);
    match e {
        WorkerEvent::Samples(reports) => {
            let updates = state::report_updates(text::views(reports@));
            assert forall|j: int| 0 <= j < updates.len() implies dto::identity_text(
                (#[trigger] updates[j]).identity,
            ) != key by {
                assert(dto::identity_text(reports@[j].sample@.identity) != key);
            }
            lemma_only_members(updates, key);
        },
        WorkerEvent::Failures(list) => {
            let updates = text::views(list@);
            assert forall|j: int| 0 <= j < updates.len() implies dto::identity_text(
                (#[trigger] updates[j]).identity,
            ) != key by {
                assert(dto::identity_text(list@[j].identity@) != key);
            }
            lemma_only_members(updates, key);
        },
        _ => {},
    }
    assert(final(w)@.sent.take(old(w)@.sent.len() as int) =~= old(w)@.sent);
}

/// After a batch of samples a point that a sample names has the status of its last sample, and
/// every other point has the status that it had. The samples stand before those that were kept,
/// the last one first, and two hundred are kept at most. Nothing else changes.
#[verifier::spinoff_prover]
#[verifier::rlimit(40)]
pub proof fn law_samples_event(
    w: &mut WebState,
    reports: Vec<SampleReport>,
    now_ms: i64,
    r: AfterEvent,
    identity: model::IdentityModel,
    i: int,
)
    requires
        call_ensures(WebState::apply_event, (w, WorkerEvent::Samples(reports), now_ms), r),
    ensures
        r == AfterEvent::Done,
        (forall|k: int|
            0 <= k < reports@.len() ==> (#[trigger] reports@[k]).sample@.identity != identity)
            ==> known(final(w)@.shared.statuses, identity) == known(
            old(w)@.shared.statuses,
            identity,
        ),
        0 <= i < reports@.len() && reports@[i].sample@.identity == identity && (forall|k: int|
            i < k < reports@.len() ==> (#[trigger] reports@[k]).sample@.identity != identity)
            ==> known(final(w)@.shared.statuses, identity) == Some(reports@[i].status@),
        ({
            let kept = final(w)@.shared.recent_samples;
            let total = reports@.len() + old(w)@.shared.recent_samples.len();
            &&& kept.len() == if total < 200 {
                total as int
            } else {
                200
            }
            &&& 0 <= i < kept.len() ==> kept[i] == if i < reports@.len() {
                dto::sample_json(reports@[reports@.len() - 1 - i].sample@)
            } else {
                old(w)@.shared.recent_samples[i - reports@.len()]
            }
        }),
        final(w)@ == (state::WebModel {
            shared: state::SharedModel {
                statuses: final(w)@.shared.statuses,
                recent_samples: final(w)@.shared.recent_samples,
                ..old(w)@.shared
            },
            sent: final(w)@.sent,
            ..old(w)@
        }),
{
    let shown = text::views(reports@);
    let updates = state::report_updates(shown);
    lemma_updated(old(w)@.shared.statuses, updates, identity);
    if forall|k: int|
        0 <= k < reports@.len() ==> (#[trigger] reports@[k]).sample@.identity != identity {
        assert forall|k: int| 0 <= k < updates.len() implies (#[trigger] updates[k]).identity
            != identity by {
            assert(reports@[k].sample@.identity != identity);
        }
    }
    if 0 <= i < reports@.len() && reports@[i].sample@.identity == identity && (forall|k: int|
        i < k < reports@.len() ==> (#[trigger] reports@[k]).sample@.identity != identity) {
        assert(updates[i].identity == identity);
        assert forall|k: int| i < k < updates.len() implies (#[trigger] updates[k]).identity
            != identity by {
            assert(reports@[k].sample@.identity != identity);
        }
    }
}

/// Of a batch of samples the browsers are told every sample in its order, and under each point's
/// key the status of its last sample.
pub proof fn law_samples_news(
    w: &mut WebState,
    reports: Vec<SampleReport>,
    now_ms: i64,
    r: AfterEvent,
    i: int,
)
    requires
        call_ensures(WebState::apply_event, (w, WorkerEvent::Samples(reports), now_ms), r),
        0 <= i < reports@.len(),
        forall|k: int|
            i < k < reports@.len() ==> dto::identity_text(
                (#[trigger] reports@[k]).sample@.identity,
            ) != dto::identity_text(reports@[i].sample@.identity),
    ensures
        sends_on(old(w)@.sent, final(w)@.sent, 1),
        says(final(w)@.sent.last(), "type"@, "samples"@),
        member(final(w)@.sent.last(), "samples"@) matches Some(JsonModel::List(list)) && list.len()
            == reports@.len() && list[i] == dto::sample_json(reports@[i].sample@),
        member(final(w)@.sent.last(), "statuses"@) matches Some(statuses) && member(
            statuses,
            dto::identity_text(reports@[i].sample@.identity),
        ) == Some(dto::point_status_json(Some(reports@[i].status@))),
{
    let updates = state::report_updates(text::views(reports@));
    assert forall|k: int| i < k < updates.len() implies dto::identity_text(
        (#[trigger] updates[k]).identity,
    ) != dto::identity_text(updates[i].identity) by {
        assert(dto::identity_text(reports@[k].sample@.identity) != dto::identity_text(
            reports@[i].sample@.identity,
        ));
    }
    lemma_members(updates, i);
    reveal_strlit("type");
    reveal_strlit("samples");
    reveal_strlit("statuses");
    assert("type"@.len() == 4);
    assert("samples"@.len() == 7);
    assert("statuses"@.len() == 8);
    assert(final(w)@.sent.take(old(w)@.sent.len() as int) =~= old(w)@.sent);
}

/// After failures a point that one names has the status of the last that does, and every other
/// point has the status that it had. Nothing else changes.
#[verifier::spinoff_prover]
#[verifier::rlimit(40)]
pub proof fn law_failures_event(
    w: &mut WebState,
    updates: Vec<StatusUpdate>,
    now_ms: i64,
    r: AfterEvent,
    identity: model::IdentityModel,
    i: int,
)
    requires
        call_ensures(WebState::apply_event, (w, WorkerEvent::Failures(updates), now_ms), r),
    ensures
        r == AfterEvent::Done,
        (forall|k: int| 0 <= k < updates@.len() ==> (#[trigger] updates@[k]).identity@ != identity)
            ==> known(final(w)@.shared.statuses, identity) == known(
            old(w)@.shared.statuses,
            identity,
        ),
        0 <= i < updates@.len() && updates@[i].identity@ == identity && (forall|k: int|
            i < k < updates@.len() ==> (#[trigger] updates@[k]).identity@ != identity) ==> known(
            final(w)@.shared.statuses,
            identity,
        ) == Some(updates@[i].status@),
        final(w)@ == (state::WebModel {
            shared: state::SharedModel {
                statuses: final(w)@.shared.statuses,
                ..old(w)@.shared
            },
            sent: final(w)@.sent,
            ..old(w)@
        }),
{
    let shown = text::views(updates@);
    lemma_updated(old(w)@.shared.statuses, shown, identity);
    if forall|k: int| 0 <= k < updates@.len() ==> (#[trigger] updates@[k]).identity@ != identity {
        assert forall|k: int| 0 <= k < shown.len() implies (#[trigger] shown[k]).identity
            != identity by {
            assert(updates@[k].identity@ != identity);
        }
    }
    if 0 <= i < updates@.len() && updates@[i].identity@ == identity && (forall|k: int|
        i < k < updates@.len() ==> (#[trigger] updates@[k]).identity@ != identity) {
        assert(shown[i].identity == identity);
        assert forall|k: int| i < k < shown.len() implies (#[trigger] shown[k]).identity
            != identity by {
            assert(updates@[k].identity@ != identity);
        }
    }
}

/// Of failures the browsers are told under each point's key the status of the last that names it.
pub proof fn law_failures_news(
    w: &mut WebState,
    updates: Vec<StatusUpdate>,
    now_ms: i64,
    r: AfterEvent,
    i: int,
)
    requires
        call_ensures(WebState::apply_event, (w, WorkerEvent::Failures(updates), now_ms), r),
        0 <= i < updates@.len(),
        forall|k: int|
            i < k < updates@.len() ==> dto::identity_text((#[trigger] updates@[k]).identity@)
                != dto::identity_text(updates@[i].identity@),
    ensures
        sends_on(old(w)@.sent, final(w)@.sent, 1),
        says(final(w)@.sent.last(), "type"@, "statuses"@),
        member(final(w)@.sent.last(), "statuses"@) matches Some(statuses) && member(
            statuses,
            dto::identity_text(updates@[i].identity@),
        ) == Some(dto::point_status_json(Some(updates@[i].status@))),
{
    let shown = text::views(updates@);
    assert forall|k: int| i < k < shown.len() implies dto::identity_text(
        (#[trigger] shown[k]).identity,
    ) != dto::identity_text(shown[i].identity) by {
        assert(dto::identity_text(updates@[k].identity@) != dto::identity_text(
            updates@[i].identity@,
        ));
    }
    lemma_members(shown, i);
    reveal_strlit("type");
    reveal_strlit("statuses");
    assert("type"@.len() == 4);
    assert("statuses"@.len() == 8);
    assert(final(w)@.sent.take(old(w)@.sent.len() as int) =~= old(w)@.sent);
}

/// What came of publishing a point changes that point's status alone, and the browsers are told of
/// it.
pub proof fn law_publication_event(
    w: &mut WebState,
    update: StatusUpdate,
    now_ms: i64,
    r: AfterEvent,
)
    requires
        call_ensures(WebState::apply_event, (w, WorkerEvent::PointPublish(update), now_ms), r),
    ensures
        r == AfterEvent::Done,
        final(w)@ == (state::WebModel {
            shared: state::SharedModel {
                statuses: old(w)@.shared.statuses.insert(update.identity@, update.status@),
                ..old(w)@.shared
            },
            sent: final(w)@.sent,
            ..old(w)@
        }),
        sends_on(old(w)@.sent, final(w)@.sent, 1),
        says(final(w)@.sent.last(), "type"@, "statuses"@),
        member(final(w)@.sent.last(), "statuses"@) matches Some(statuses) && member(
            statuses,
            dto::identity_text(update.identity@),
        ) == Some(dto::point_status_json(Some(update.status@))),
{
    let one = seq![update@];
    assert(one.drop_last() =~= Seq::empty());
    assert(one.last() == update@);
    reveal_with_fuel(state::updated, 2);
    reveal_with_fuel(state::update_members, 2);
    reveal_strlit("type");
    reveal_strlit("statuses");
    assert("type"@.len() == 4);
    assert("statuses"@.len() == 8);
    assert(final(w)@.sent.take(old(w)@.sent.len() as int) =~= old(w)@.sent);
}

/// Publications add up, and the browsers are told the sum. Nothing else changes.
pub proof fn law_publications_event(
    w: &mut WebState,
    published: usize,
    now_ms: i64,
    r: AfterEvent,
)
    requires
        call_ensures(
            WebState::apply_event,
            (w, (WorkerEvent::PublishStatus { published }), now_ms),
            r,
        ),
        old(w)@.shared.published_total + published <= usize::MAX,
    ensures
        r == AfterEvent::Done,
        final(w)@.shared.published_total == old(w)@.shared.published_total + published,
        final(w)@ == (state::WebModel {
            shared: state::SharedModel {
                published_total: final(w)@.shared.published_total,
                ..old(w)@.shared
            },
            sent: final(w)@.sent,
            ..old(w)@
        }),
        sends_on(old(w)@.sent, final(w)@.sent, 1),
        says(final(w)@.sent.last(), "type"@, "stats"@),
        counts(
            final(w)@.sent.last(),
            "published_total"@,
            old(w)@.shared.published_total + published,
        ),
{
    reveal_strlit("type");
    reveal_strlit("published_total");
    assert("type"@.len() == 4);
    assert("published_total"@.len() == 15);
    assert(final(w)@.sent.take(old(w)@.sent.len() as int) =~= old(w)@.sent);
}

/// Where the republisher stands is taken over and told last; a failure is logged as an error with
/// its reason. Nothing else changes.
pub proof fn law_lifecycle_event(
    w: &mut WebState,
    lifecycle: RepublisherLifecycle,
    now_ms: i64,
    r: AfterEvent,
    stage: Json,
)
    requires
        call_ensures(WebState::apply_event, (w, WorkerEvent::Lifecycle(lifecycle), now_ms), r),
        call_ensures(lifecycle_dto, (&lifecycle,), stage),
        old(w)@.shared.log_seq < u64::MAX,
    ensures
        r == AfterEvent::Done,
        final(w)@.shared.lifecycle == lifecycle@,
        says(final(w)@.sent.last(), "type"@, "lifecycle"@),
        member(final(w)@.sent.last(), "lifecycle"@) == Some(stage@),
        same_but_status(
            (state::SharedModel { lifecycle: lifecycle@, ..old(w)@.shared }),
            final(w)@.shared,
        ),
        final(w)@.shared.status_line == old(w)@.shared.status_line,
        match lifecycle@ {
            model::LifecycleModel::Failed(e) => {
                &&& sends_on(old(w)@.sent, final(w)@.sent, 2)
                &&& one_more_line(
                    old(w)@.shared,
                    final(w)@.shared,
                    "error"@,
                    "Republisher failed: "@ + e,
                    now_ms,
                )
                &&& tells_line(
                    final(w)@.sent[old(w)@.sent.len() as int],
                    final(w)@.shared.logs.last(),
                )
            },
            _ => sends_on(old(w)@.sent, final(w)@.sent, 1) && final(w)@.shared.logs
                == old(w)@.shared.logs && final(w)@.shared.log_seq == old(w)@.shared.log_seq,
        },
{
    reveal_strlit("type");
    reveal_strlit("lifecycle");
    assert("type"@.len() != "lifecycle"@.len());
    let n = old(w)@.sent.len() as int;
    match lifecycle@ {
        model::LifecycleModel::Failed(e) => {
            let said = "Republisher failed: "@ + e;
            lemma_told(old(w)@, LogLevel::Error, said, now_ms);
            let v = state::told(old(w)@, LogLevel::Error, said, now_ms);
            assert(final(w)@.sent == v.sent.push(final(w)@.sent.last()));
            assert(final(w)@.sent[n] == v.sent[n]);
            assert(v.sent.last() == v.sent[n]);
            assert(final(w)@.sent.take(n) =~= v.sent.take(n));
            assert(final(w)@.shared.logs == v.shared.logs);
        },
        _ => {
            assert(final(w)@.sent.take(n) =~= old(w)@.sent);
        },
    }
}

/// A configuration is written only where it is valid, and what came of it is told as it was: saved,
/// not valid, or not written, with the reason.
pub proof fn law_saving(
    w: &mut WebState,
    outcome: SaveOutcome,
    now_ms: i64,
    r: Result<(), String>,
)
    requires
        call_ensures(WebState::save_config, (w, outcome, now_ms), r),
        old(w)@.shared.log_seq < u64::MAX,
    ensures
        sends_on(old(w)@.sent, final(w)@.sent, 1),
        same_but_status(old(w)@.shared, final(w)@.shared),
        match outcome {
            SaveOutcome::Saved => r is Ok && status_said(
                old(w)@.shared,
                final(w)@.shared,
                final(w)@.sent.last(),
                "info"@,
                "Configuration saved"@,
                now_ms,
            ),
            SaveOutcome::Invalid(e) => r matches Err(message) && message@ == "Config invalid: "@
                + e@ && status_said(
                old(w)@.shared,
                final(w)@.shared,
                final(w)@.sent.last(),
                "error"@,
                "Config invalid: "@ + e@,
                now_ms,
            ),
            SaveOutcome::Failed(e) => r matches Err(message) && message@ == "Save failed: "@ + e@
                && status_said(
                old(w)@.shared,
                final(w)@.shared,
                final(w)@.sent.last(),
                "error"@,
                "Save failed: "@ + e@,
                now_ms,
            ),
        },
{
    match outcome {
        SaveOutcome::Saved => lemma_status(
            old(w)@,
            LogLevel::Info,
            "Configuration saved"@,
            now_ms,
        ),
        SaveOutcome::Invalid(e) => lemma_status(
            old(w)@,
            LogLevel::Error,
            "Config invalid: "@ + e@,
            now_ms,
        ),
        SaveOutcome::Failed(e) => lemma_status(
            old(w)@,
            LogLevel::Error,
            "Save failed: "@ + e@,
            now_ms,
        ),
    }
}

/// What is not valid is never written, and what is valid always is.
pub proof fn law_only_valid_is_written(
    validated: Result<(), String>,
    written: Result<(), String>,
    step: SaveStep,
    outcome: SaveOutcome,
)
    requires
        call_ensures(save_step, (validated,), step),
        call_ensures(write_outcome, (written,), outcome),
    ensures
        step is Write <==> validated is Ok,
        validated matches Err(e) ==> step matches SaveStep::Refuse(SaveOutcome::Invalid(f)) && f@
            == e@,
        outcome is Saved <==> written is Ok,
        written matches Err(e) ==> outcome matches SaveOutcome::Failed(f) && f@ == e@,
{
}

/// The end of an import: what came of saving it is said, then how many points it added and updated,
/// and then the browsers are told of the points, whether it was saved or not.
pub proof fn law_import_finished(
    w: &mut WebState,
    added: usize,
    updated: usize,
    outcome: SaveOutcome,
    facts: &Vec<PointFacts>,
    now_ms: i64,
)
    requires
        call_ensures(
            WebState::finish_import,
            (w, added, updated, outcome, facts, now_ms),
            (),
        ),
        old(w)@.shared.log_seq + 2 <= u64::MAX,
        facts@.len() == old(w)@.shared.config.points.len(),
    ensures
        sends_on(old(w)@.sent, final(w)@.sent, 3),
        same_but_status(old(w)@.shared, final(w)@.shared),
        final(w)@.shared.log_seq == old(w)@.shared.log_seq + 2,
        final(w)@.shared.status_line == "Bulk import: "@ + text::decimal(added as nat)
            + " added, "@ + text::decimal(updated as nat) + " updated"@,
        final(w)@.shared.logs.last().message == final(w)@.shared.status_line,
        final(w)@.shared.logs.last().level == "info"@,
        says(
            final(w)@.sent[old(w)@.sent.len() as int],
            "status_line"@,
            match outcome {
                SaveOutcome::Saved => "Configuration saved"@,
                SaveOutcome::Invalid(e) => "Config invalid: "@ + e@,
                SaveOutcome::Failed(e) => "Save failed: "@ + e@,
            },
        ),
        says(
            final(w)@.sent[old(w)@.sent.len() as int + 1],
            "status_line"@,
            final(w)@.shared.status_line,
        ),
        says(final(w)@.sent.last(), "type"@, "points"@),
        member(final(w)@.sent.last(), "points"@) == Some(
            state::points_document(final(w)@.shared, text::views(facts@)),
        ),
{
    let saved = state::saved(old(w)@, outcome@, now_ms);
    match outcome {
        SaveOutcome::Saved => lemma_status(
            old(w)@,
            LogLevel::Info,
            "Configuration saved"@,
            now_ms,
        ),
        SaveOutcome::Invalid(e) => lemma_status(
            old(w)@,
            LogLevel::Error,
            "Config invalid: "@ + e@,
            now_ms,
        ),
        SaveOutcome::Failed(e) => lemma_status(
            old(w)@,
            LogLevel::Error,
            "Save failed: "@ + e@,
            now_ms,
        ),
    }
    let said = state::import_message(added, updated);
    lemma_status(saved, LogLevel::Info, said, now_ms);
    let noted = state::status_set(saved, LogLevel::Info, said, now_ms);
    reveal_strlit("type");
    reveal_strlit("points");
    assert("type"@.len() != "points"@.len());
    let n = old(w)@.sent.len() as int;
    assert(final(w)@.sent == noted.sent.push(final(w)@.sent.last()));
    assert(noted.sent.take(n + 1) == saved.sent);
    assert(noted.sent[n] == noted.sent.take(n + 1)[n]);
    assert(final(w)@.sent.take(n) =~= noted.sent.take(n + 1).take(n));
}

/// A daemon that has just started knows its adapters by their names, its configuration and where
/// that is, and one log line, which is its status; nothing is found, read or published yet.
pub proof fn law_fresh_start(
    capabilities: Vec<Capabilities>,
    protocol_ids: Vec<String>,
    config: AppConfig,
    config_path: String,
    boot_status: String,
    now_ms: i64,
    w: WebState,
    i: int,
)
    requires
        call_ensures(
            WebState::new,
            (capabilities, protocol_ids, config, config_path, boot_status, now_ms),
            w,
        ),
    ensures
        w@.protocol_ids == text::views(protocol_ids@),
        w@.config_path == config_path@,
        w@.sent.len() == 0,
        w@.shared.config == config@,
        w@.shared.devices.len() == 0,
        w@.shared.browsed.len() == 0,
        w@.shared.scan_progress is None,
        w@.shared.statuses.dom() =~= Set::empty(),
        w@.shared.recent_samples.len() == 0,
        w@.shared.lifecycle is Stopped,
        w@.shared.stop_flag is None,
        w@.shared.published_total == 0,
        w@.shared.status_line == boot_status@,
        w@.shared.log_seq == 1,
        w@.shared.logs.len() == 1,
        w@.shared.logs[0].message == boot_status@,
        w@.shared.logs[0].level == "info"@,
        w@.shared.logs[0].seq == 1,
        w@.shared.logs[0].ts_ms == now_ms,
        0 <= i < capabilities@.len() && (forall|j: int|
            i < j < capabilities@.len() ==> (#[trigger] capabilities@[j])@.id
                != capabilities@[i]@.id) ==> w@.caps.dom().contains(capabilities@[i]@.id)
            && w@.caps[capabilities@[i]@.id] == capabilities@[i]@,
        forall|id: Seq<char>| #[trigger]
            w@.caps.dom().contains(id) ==> w@.caps[id].id == id && text::views(
                capabilities@,
            ).contains(w@.caps[id]),
{
    let shown = text::views(capabilities@);
    lemma_caps(shown, i);
    if 0 <= i < capabilities@.len() && (forall|j: int|
        i < j < capabilities@.len() ==> (#[trigger] capabilities@[j])@.id != capabilities@[i]@.id) {
        assert forall|j: int| i < j < shown.len() implies (#[trigger] shown[j]).id
            != shown[i].id by {
            assert(capabilities@[j]@.id != capabilities@[i]@.id);
        }
    }
}

/// The adapters by their names: the last one of each name, and no other.
proof fn lemma_caps(caps: Seq<model::CapsModel>, i: int)
    ensures
        0 <= i < caps.len() && (forall|j: int|
            i < j < caps.len() ==> (#[trigger] caps[j]).id != caps[i].id) ==> state::caps_by_id(
            caps,
        ).dom().contains(caps[i].id) && state::caps_by_id(caps)[caps[i].id] == caps[i],
        forall|id: Seq<char>| #[trigger]
            state::caps_by_id(caps).dom().contains(id) ==> state::caps_by_id(caps)[id].id == id
                && caps.contains(state::caps_by_id(caps)[id]),
    decreases caps.len(),
{
    if caps.len() > 0 {
        let rest = caps.drop_last();
        lemma_caps(rest, i);
        let n = caps.len() - 1;
        assert(caps[n] == caps.last());
        if 0 <= i < n && (forall|j: int| i < j < caps.len() ==> (#[trigger] caps[j]).id
            != caps[i].id) {
            assert(caps[n].id != caps[i].id);
            assert forall|j: int| i < j < rest.len() implies (#[trigger] rest[j]).id
                != rest[i].id by {
                assert(rest[j] == caps[j]);
            }
        }
        assert forall|id: Seq<char>| #[trigger]
            state::caps_by_id(caps).dom().contains(id) implies state::caps_by_id(caps)[id].id == id
            && caps.contains(state::caps_by_id(caps)[id]) by {
            if id == caps.last().id {
                assert(caps.contains(caps[n]));
            } else {
                let c = state::caps_by_id(rest)[id];
                assert(rest.contains(c));
                let j = choose|j: int| 0 <= j < rest.len() && rest[j] == c;
                assert(caps[j] == c);
            }
        }
    }
}

/// The counters take an event exactly when they do not overflow: a line for a log entry, for each
/// warning, for a failure and for the end of a job, and the sum of the publications.
pub proof fn law_room(w: &WebState, e: &WorkerEvent, r: bool, n: u64, s: bool)
    requires
        call_ensures(WebState::can_apply, (w, e), r),
        call_ensures(WebState::can_log, (w, n), s),
    ensures
        s <==> w@.shared.log_seq + n <= u64::MAX,
        *e is Log || *e is Finished ==> (r <==> w@.shared.log_seq < u64::MAX),
        *e matches WorkerEvent::Devices { devices, warnings } ==> (r <==> w@.shared.log_seq
            + warnings@.len() <= u64::MAX),
        *e matches WorkerEvent::Lifecycle(l) ==> (r <==> l is Failed ==> w@.shared.log_seq
            < u64::MAX),
        *e matches WorkerEvent::PublishStatus { published } ==> (r <==> w@.shared.published_total
            + published <= usize::MAX),
        *e is Samples || *e is Failures || *e is PointPublish || *e is Points || *e is ScanProgress
            || *e is BulkTagImport ==> r,
{
}

} // verus!
