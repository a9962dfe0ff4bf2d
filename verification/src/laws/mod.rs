//! What holds of the library's functions, whatever is done inside them.
//!
//! Most of these laws speak of calls: `call_ensures(f, arguments, result)` is what is known of a
//! call of `f`, and the law says how its result and what it changed relate to what it was given.

pub mod access;
pub mod boot;
pub mod documents;
pub mod environment;
pub mod events;
pub mod points;
pub mod settings;
pub mod tables;
pub mod texts;
pub mod workers;

use vstd::prelude::*;

use crate::config;
use crate::json::JsonModel;
use crate::model;
use crate::web::api;
use crate::web::state;

verus! {

/// A member of a document; none where the document is no object or has no such member.
pub open spec fn member(document: JsonModel, key: Seq<char>) -> Option<JsonModel> {
    match document {
        JsonModel::Object(members) => if members.dom().contains(key) {
            Some(members[key])
        } else {
            None
        },
        _ => None,
    }
}

/// Whether a member of a document is this text.
pub open spec fn says(document: JsonModel, key: Seq<char>, value: Seq<char>) -> bool {
    member(document, key) == Some(JsonModel::Text(value))
}

/// Whether a member of a document is this number.
pub open spec fn counts(document: JsonModel, key: Seq<char>, value: int) -> bool {
    member(document, key) == Some(JsonModel::Number(value))
}

/// Whether a request is refused with this status and this message.
pub open spec fn refused<T>(r: Result<T, api::ApiError>, status: u16, message: Seq<char>) -> bool {
    match r {
        Ok(_) => false,
        Err(e) => e.status == status && e.message@ == message,
    }
}

/// Whether nothing but the configuration differs.
pub open spec fn same_but_config(before: state::WebModel, after: state::WebModel) -> bool {
    after == (state::WebModel {
        shared: state::SharedModel { config: after.shared.config, ..before.shared },
        ..before
    })
}

/// Whether nothing but the configured points differs.
pub open spec fn same_but_points(before: state::WebModel, after: state::WebModel) -> bool {
    &&& same_but_config(before, after)
    &&& after.shared.config == (config::ConfigModel {
        points: after.shared.config.points,
        ..before.shared.config
    })
}

/// Whether `after` has one more log line, which says this; the oldest line goes where five hundred
/// are there.
pub open spec fn one_more_line(
    before: state::SharedModel,
    after: state::SharedModel,
    level: Seq<char>,
    message: Seq<char>,
    now_ms: i64,
) -> bool {
    let kept = if before.logs.len() >= 500 {
        before.logs.skip(1)
    } else {
        before.logs
    };
    &&& after.log_seq == before.log_seq + 1
    &&& after.logs.len() == kept.len() + 1
    &&& after.logs.drop_last() == kept
    &&& after.logs.last().seq == before.log_seq + 1
    &&& after.logs.last().ts_ms == now_ms
    &&& after.logs.last().level == level
    &&& after.logs.last().message == message
}

/// Whether a document tells of a log line.
pub open spec fn tells_line(document: JsonModel, line: state::LogModel) -> bool {
    &&& says(document, "type"@, "log"@)
    &&& member(document, "record"@) matches Some(record) && {
        &&& counts(record, "seq"@, line.seq as int)
        &&& counts(record, "ts_ms"@, line.ts_ms as int)
        &&& says(record, "level"@, line.level)
        &&& says(record, "message"@, line.message)
    }
}

/// Whether a status was set: the status line says it, a log line says it, and the document tells
/// of both.
pub open spec fn status_said(
    before: state::SharedModel,
    after: state::SharedModel,
    document: JsonModel,
    level: Seq<char>,
    message: Seq<char>,
    now_ms: i64,
) -> bool {
    &&& after.status_line == message
    &&& one_more_line(before, after, level, message, now_ms)
    &&& tells_line(document, after.logs.last())
    &&& says(document, "status_line"@, message)
}

/// Whether nothing but the status line and the log differs.
pub open spec fn same_but_status(before: state::SharedModel, after: state::SharedModel) -> bool {
    after == (state::SharedModel {
        status_line: after.status_line,
        logs: after.logs,
        log_seq: after.log_seq,
        ..before
    })
}

/// Whether `after` sends what `before` sends and then more.
pub open spec fn sends_on(before: Seq<JsonModel>, after: Seq<JsonModel>, more: int) -> bool {
    &&& after.len() == before.len() + more
    &&& after.take(before.len() as int) == before
}

/// The status of a point; none where nothing is known of it.
pub open spec fn known(
    statuses: Map<model::IdentityModel, model::StatusModel>,
    identity: model::IdentityModel,
) -> Option<model::StatusModel> {
    if statuses.dom().contains(identity) {
        Some(statuses[identity])
    } else {
        None
    }
}

} // verus!
