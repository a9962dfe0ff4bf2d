//! Laws of the requests that start and stop workers.

use vstd::prelude::*;
use vstd::string::*;

use crate::config;
use crate::json::{Json, JsonModel};
use crate::laws::events::{lemma_progress, lemma_status};
use crate::laws::{counts, member, refused, same_but_status, says, sends_on, status_said};
use crate::model;
use crate::model::LogLevel;
use crate::web::api;
use crate::web::api::{
    browse_device, discover, poll_once, scan_all, start_republisher, stop_republisher, ApiError,
    WorkerCommand,
};
use crate::web::shut_down;
use crate::web::state;
use crate::web::state::WebState;

verus! {

/// Whether an addressing holds the connection settings of the active protocol: those that are
/// stored for it, and nothing where none are.
pub open spec fn is_connection(a: model::AddressingModel, c: config::ConfigModel) -> bool {
    &&& c.connections.dom().contains(c.protocol) ==> a == c.connections[c.protocol]
    &&& !c.connections.dom().contains(c.protocol) ==> a.dom() =~= Set::empty()
}

/// Starting discovery forgets the devices, says so, and hands the worker the active protocol's
/// connection settings. Without an adapter it is refused, and nothing changes.
pub proof fn law_discover(
    w: &mut WebState,
    has_adapter: bool,
    now_ms: i64,
    r: Result<WorkerCommand, ApiError>,
)
    requires
        call_ensures(discover, (w, has_adapter, now_ms), r),
        old(w)@.shared.log_seq < u64::MAX,
    ensures
        ({
            let before = old(w)@;
            let after = final(w)@;
            let n = before.sent.len() as int;
            &&& r is Ok <==> has_adapter
            &&& r is Err ==> refused(r, 400, "no protocol selected"@) && after == before
            &&& r matches Ok(command) ==> {
                &&& command@ matches api::CommandModel::Discover { connection } && is_connection(
                    connection,
                    before.shared.config,
                )
                &&& after.shared.devices.len() == 0
                &&& same_but_status(
                    (state::SharedModel { devices: after.shared.devices, ..before.shared }),
                    after.shared,
                )
                &&& status_said(
                    before.shared,
                    after.shared,
                    after.sent[n],
                    "info"@,
                    "Discovering\u{2026}"@,
                    now_ms,
                )
                &&& sends_on(before.sent, after.sent, 2)
                &&& says(after.sent[n + 1], "type"@, "devices"@)
                &&& member(after.sent[n + 1], "devices"@) == Some(JsonModel::List(Seq::empty()))
            }
        }),
{
    reveal_strlit("type");
    reveal_strlit("devices");
    assert("type"@.len() == 4);
    assert("devices"@.len() == 7);
    if has_adapter {
        let w0 = old(w)@;
        let cleared = state::WebModel {
            shared: state::SharedModel { devices: Seq::empty(), ..w0.shared },
            ..w0
        };
        lemma_status(cleared, LogLevel::Info, "Discovering\u{2026}"@, now_ms);
        let v = state::status_set(cleared, LogLevel::Info, "Discovering\u{2026}"@, now_ms);
        let n = w0.sent.len() as int;
        assert(final(w)@.sent == v.sent.push(final(w)@.sent[n + 1]));
        assert(final(w)@.sent.take(n) =~= v.sent.take(n));
        assert(final(w)@.sent[n] == v.sent.last());
    }
}

/// Starting to browse a device forgets the browsed points, says so, and hands the worker that
/// device and the active protocol's connection settings. A device that is not there is refused, and
/// so is a request without an adapter; then nothing changes.
pub proof fn law_browse(
    w: &mut WebState,
    index: usize,
    has_adapter: bool,
    now_ms: i64,
    r: Result<WorkerCommand, ApiError>,
)
    requires
        call_ensures(browse_device, (w, index, has_adapter, now_ms), r),
        old(w)@.shared.log_seq < u64::MAX,
    ensures
        ({
            let before = old(w)@;
            let after = final(w)@;
            let n = before.sent.len() as int;
            &&& r is Ok <==> index < before.shared.devices.len() && has_adapter
            &&& r is Err ==> after == before
            &&& index >= before.shared.devices.len() ==> refused(
                r,
                404,
                "no such discovered device"@,
            )
            &&& index < before.shared.devices.len() && !has_adapter ==> refused(
                r,
                400,
                "no protocol selected"@,
            )
            &&& r matches Ok(command) ==> {
                let chosen = before.shared.devices[index as int];
                &&& command@ matches api::CommandModel::Browse { connection, device }
                    && is_connection(connection, before.shared.config) && device == chosen
                &&& after.shared.browsed.len() == 0
                &&& same_but_status(
                    (state::SharedModel { browsed: after.shared.browsed, ..before.shared }),
                    after.shared,
                )
                &&& status_said(
                    before.shared,
                    after.shared,
                    after.sent[n],
                    "info"@,
                    "Browsing "@ + chosen.key + "\u{2026}"@,
                    now_ms,
                )
                &&& sends_on(before.sent, after.sent, 2)
                &&& says(after.sent[n + 1], "type"@, "browsed"@)
                &&& member(after.sent[n + 1], "points"@) == Some(JsonModel::List(Seq::empty()))
            }
        }),
{
    reveal_strlit("type");
    reveal_strlit("points");
    assert("type"@.len() == 4);
    assert("points"@.len() == 6);
    if r is Ok {
        let w0 = old(w)@;
        let cleared = state::WebModel {
            shared: state::SharedModel { browsed: Seq::empty(), ..w0.shared },
            ..w0
        };
        let said = "Browsing "@ + w0.shared.devices[index as int].key + "\u{2026}"@;
        lemma_status(cleared, LogLevel::Info, said, now_ms);
        let v = state::status_set(cleared, LogLevel::Info, said, now_ms);
        let n = w0.sent.len() as int;
        assert(final(w)@.sent == v.sent.push(final(w)@.sent[n + 1]));
        assert(final(w)@.sent.take(n) =~= v.sent.take(n));
        assert(final(w)@.sent[n] == v.sent.last());
    }
}

/// Starting a scan hands the worker every device and every configured point; its progress starts at
/// none of the devices. Without a device it is refused with a warning, and without an adapter
/// nothing changes.
pub proof fn law_scan_all(
    w: &mut WebState,
    has_adapter: bool,
    now_ms: i64,
    r: Result<WorkerCommand, ApiError>,
)
    requires
        call_ensures(scan_all, (w, has_adapter, now_ms), r),
        old(w)@.shared.log_seq < u64::MAX,
        old(w)@.shared.devices.len() <= usize::MAX,
    ensures
        ({
            let before = old(w)@;
            let after = final(w)@;
            let n = before.sent.len() as int;
            let total = before.shared.devices.len();
            &&& r is Ok <==> total > 0 && has_adapter
            &&& total == 0 ==> {
                &&& refused(r, 400, "discover devices before scan-all"@)
                &&& same_but_status(before.shared, after.shared)
                &&& sends_on(before.sent, after.sent, 1)
                &&& status_said(
                    before.shared,
                    after.shared,
                    after.sent[n],
                    "warning"@,
                    "Discover devices before scan-all"@,
                    now_ms,
                )
            }
            &&& total > 0 && !has_adapter ==> refused(r, 400, "no protocol selected"@) && after
                == before
            &&& r matches Ok(command) ==> {
                &&& command@ matches api::CommandModel::ScanAll { connection, devices, existing }
                    && is_connection(connection, before.shared.config) && devices
                    == before.shared.devices && existing == before.shared.config.points
                &&& after.shared.scan_progress matches Some((current, all)) && current == 0 && all
                    == total
                &&& same_but_status(
                    (state::SharedModel {
                        scan_progress: after.shared.scan_progress,
                        ..before.shared
                    }),
                    after.shared,
                )
                &&& status_said(
                    before.shared,
                    after.shared,
                    after.sent[n],
                    "info"@,
                    "Scanning all objects\u{2026}"@,
                    now_ms,
                )
                &&& sends_on(before.sent, after.sent, 2)
                &&& says(after.sent[n + 1], "type"@, "scan_progress"@)
                &&& counts(after.sent[n + 1], "current"@, 0)
                &&& counts(after.sent[n + 1], "total"@, total as int)
            }
        }),
{
    let w0 = old(w)@;
    let n = w0.sent.len() as int;
    if r is Ok {
        let total = w0.shared.devices.len() as usize;
        lemma_progress(0, total);
        let begun = state::WebModel {
            shared: state::SharedModel { scan_progress: Some((0, total)), ..w0.shared },
            ..w0
        };
        lemma_status(begun, LogLevel::Info, "Scanning all objects\u{2026}"@, now_ms);
        let v = state::status_set(begun, LogLevel::Info, "Scanning all objects\u{2026}"@, now_ms);
        assert(final(w)@.sent == v.sent.push(final(w)@.sent[n + 1]));
        assert(final(w)@.sent.take(n) =~= v.sent.take(n));
        assert(final(w)@.sent[n] == v.sent.last());
    } else {
        lemma_status(w0, LogLevel::Warning, "Discover devices before scan-all"@, now_ms);
    }
}

/// Reading once hands the worker every configured point and the broker settings, and changes
/// nothing but the status. Without an adapter nothing changes.
pub proof fn law_poll_once(
    w: &mut WebState,
    has_adapter: bool,
    now_ms: i64,
    r: Result<WorkerCommand, ApiError>,
)
    requires
        call_ensures(poll_once, (w, has_adapter, now_ms), r),
        old(w)@.shared.log_seq < u64::MAX,
    ensures
        ({
            let before = old(w)@;
            let after = final(w)@;
            &&& r is Ok <==> has_adapter
            &&& r is Err ==> refused(r, 400, "no protocol selected"@) && after == before
            &&& r matches Ok(command) ==> {
                &&& command@ matches api::CommandModel::PollOnce { connection, mqtt, points }
                    && is_connection(connection, before.shared.config) && mqtt
                    == before.shared.config.mqtt && points == before.shared.config.points
                &&& same_but_status(before.shared, after.shared)
                &&& sends_on(before.sent, after.sent, 1)
                &&& status_said(
                    before.shared,
                    after.shared,
                    after.sent.last(),
                    "info"@,
                    "Polling once\u{2026}"@,
                    now_ms,
                )
            }
        }),
{
    lemma_status(old(w)@, LogLevel::Info, "Polling once\u{2026}"@, now_ms);
}

/// A republisher is started only where none is starting, running or stopping, the configuration is
/// valid and there is an adapter. It gets every configured point, the broker settings and the
/// active protocol's connection settings; it is not asked to stop, and its publications count from
/// nothing. What stands against it is told, and nothing is started.
pub proof fn law_start(
    w: &mut WebState,
    invalid: Option<String>,
    has_adapter: bool,
    now_ms: i64,
    r: Result<WorkerCommand, ApiError>,
)
    requires
        call_ensures(start_republisher, (w, invalid, has_adapter, now_ms), r),
        old(w)@.shared.log_seq < u64::MAX,
    ensures
        ({
            let before = old(w)@;
            let after = final(w)@;
            let l = before.shared.lifecycle;
            let idle = l is Stopped || l is Failed;
            &&& r is Ok <==> idle && invalid is None && has_adapter
            &&& !idle ==> refused(r, 409, "republisher is already running"@) && after == before
            &&& idle && invalid is Some ==> {
                &&& refused(r, 400, "Cannot start: "@ + invalid->Some_0@)
                &&& same_but_status(before.shared, after.shared)
                &&& sends_on(before.sent, after.sent, 1)
                &&& status_said(
                    before.shared,
                    after.shared,
                    after.sent.last(),
                    "error"@,
                    "Cannot start: "@ + invalid->Some_0@,
                    now_ms,
                )
            }
            &&& idle && invalid is None && !has_adapter ==> refused(
                r,
                400,
                "no protocol selected"@,
            ) && after == before
            &&& r matches Ok(command) ==> {
                &&& command@ matches api::CommandModel::Republish { connection, mqtt, points }
                    && is_connection(connection, before.shared.config) && mqtt
                    == before.shared.config.mqtt && points == before.shared.config.points
                &&& after.shared.stop_flag == Some(false)
                &&& after.shared.published_total == 0
                &&& same_but_status(
                    (state::SharedModel {
                        stop_flag: after.shared.stop_flag,
                        published_total: after.shared.published_total,
                        ..before.shared
                    }),
                    after.shared,
                )
                &&& sends_on(before.sent, after.sent, 1)
                &&& status_said(
                    before.shared,
                    after.shared,
                    after.sent.last(),
                    "info"@,
                    "Republisher starting\u{2026}"@,
                    now_ms,
                )
            }
        }),
{
    let w0 = old(w)@;
    if let Some(e) = invalid {
        lemma_status(w0, LogLevel::Error, "Cannot start: "@ + e@, now_ms);
    } else {
        let begun = state::WebModel {
            shared: state::SharedModel {
                stop_flag: Some(false),
                published_total: 0,
                ..w0.shared
            },
            ..w0
        };
        lemma_status(begun, LogLevel::Info, "Republisher starting\u{2026}"@, now_ms);
    }
}

/// A republisher that was started is asked to stop, and that is said; where none was, nothing
/// changes. Either way the request is a success.
pub proof fn law_stop(w: &mut WebState, now_ms: i64, r: Json)
    requires
        call_ensures(stop_republisher, (w, now_ms), r),
        old(w)@.shared.log_seq < u64::MAX,
    ensures
        ({
            let before = old(w)@;
            let after = final(w)@;
            &&& member(r@, "ok"@) == Some(JsonModel::Bool(true))
            &&& before.shared.stop_flag is None ==> after == before
            &&& before.shared.stop_flag is Some ==> {
                &&& after.shared.stop_flag == Some(true)
                &&& same_but_status(
                    (state::SharedModel { stop_flag: after.shared.stop_flag, ..before.shared }),
                    after.shared,
                )
                &&& sends_on(before.sent, after.sent, 1)
                &&& status_said(
                    before.shared,
                    after.shared,
                    after.sent.last(),
                    "info"@,
                    "Stopping republisher\u{2026}"@,
                    now_ms,
                )
            }
        }),
{
    let w0 = old(w)@;
    let asked = state::WebModel {
        shared: state::SharedModel { stop_flag: Some(true), ..w0.shared },
        ..w0
    };
    lemma_status(asked, LogLevel::Info, "Stopping republisher\u{2026}"@, now_ms);
}

/// When the daemon stops, a republisher that was started is asked to stop too, and one that was not
/// is not made up; that the daemon stops is said.
pub proof fn law_shut_down(w: &mut WebState, now_ms: i64)
    requires
        call_ensures(shut_down, (w, now_ms), ()),
        old(w)@.shared.log_seq < u64::MAX,
    ensures
        ({
            let before = old(w)@;
            let after = final(w)@;
            &&& before.shared.stop_flag is Some ==> after.shared.stop_flag == Some(true)
            &&& before.shared.stop_flag is None ==> after.shared.stop_flag is None
            &&& same_but_status(
                (state::SharedModel { stop_flag: after.shared.stop_flag, ..before.shared }),
                after.shared,
            )
            &&& sends_on(before.sent, after.sent, 1)
            &&& status_said(
                before.shared,
                after.shared,
                after.sent.last(),
                "info"@,
                "Shutting down\u{2026}"@,
                now_ms,
            )
        }),
{
    let w0 = old(w)@;
    let asked = state::WebModel {
        shared: state::SharedModel { stop_flag: final(w)@.shared.stop_flag, ..w0.shared },
        ..w0
    };
    lemma_status(asked, LogLevel::Info, "Shutting down\u{2026}"@, now_ms);
}

} // verus!
