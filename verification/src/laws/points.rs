//! Laws of forms and of the configured points.

use vstd::prelude::*;

use crate::config;
use crate::json::{Json, JsonModel};
use crate::laws::events::lemma_status;
use crate::laws::texts::law_decimal_reads_back;
use crate::laws::{
    counts, known, member, refused, same_but_config, same_but_points, same_but_status, says,
    sends_on,
};
use crate::model;
use crate::model::{Addressing, FieldSpec, LogLevel, PointConfig, PointFacts, PointIdentity};
use crate::text;
use crate::web::api;
use crate::web::api::{
    add_browsed_point, browsed_point, build_addressing, clear_points, default_enabled,
    default_poll_interval, delete_point, finish_save, save_point, set_connection, toggle_point,
    AfterSave, ApiError, ConnectionReq, FormValues, PointReq, ToggleReq,
};
use crate::web::dto;
use crate::web::state;
use crate::web::state::{SaveOutcome, WebState};

verus! {

/// What a form sends for a field; an empty text where it sends nothing.
pub open spec fn sent_for(values: Map<Seq<char>, Seq<char>>, key: Seq<char>) -> Seq<char> {
    if values.dom().contains(key) {
        values[key]
    } else {
        ""@
    }
}

/// Whether a value is what a form's text for a field of a kind stands for: of a truth value it is
/// true exactly when the text is `true`; of a number the number, where the text without
/// surrounding white space is one, and otherwise the text; of any other kind the text as it is.
pub open spec fn stands_for(
    value: model::ValueModel,
    kind: model::FieldKindModel,
    raw: Seq<char>,
) -> bool {
    match kind {
        model::FieldKindModel::Bool => {
            &&& raw == "true"@ ==> value == model::ValueModel::Bool(true)
            &&& raw != "true"@ ==> value == model::ValueModel::Bool(false)
        },
        model::FieldKindModel::U32 => {
            &&& forall|n: nat|
                n <= u64::MAX && text::trimmed(raw) == #[trigger] text::decimal(n) ==> value
                    == model::ValueModel::Number(text::decimal(n))
            &&& text::number(text::trimmed(raw), u64::MAX as nat) matches Some(n) ==> value
                == model::ValueModel::Number(text::decimal(n))
            &&& text::number(text::trimmed(raw), u64::MAX as nat) is None ==> value
                == model::ValueModel::Text(raw)
        },
        _ => value == model::ValueModel::Text(raw),
    }
}

/// A form gives every field the value that its text stands for, by the field's kind, and no other
/// name a value. Of two fields with one name the later one counts.
pub proof fn law_form(specs: &Vec<FieldSpec>, values: &FormValues, r: Addressing, i: int)
    requires
        call_ensures(build_addressing, (specs, values), r),
    ensures
        0 <= i < specs@.len() && (forall|j: int|
            i < j < specs@.len() ==> (#[trigger] specs@[j]).key@ != specs@[i].key@)
            ==> r@.dom().contains(specs@[i].key@) && stands_for(
            r@[specs@[i].key@],
            specs@[i].kind@,
            sent_for(values@, specs@[i].key@),
        ),
        forall|key: Seq<char>| #[trigger]
            r@.dom().contains(key) ==> exists|j: int|
                0 <= j < specs@.len() && (#[trigger] specs@[j]).key@ == key,
{
    let shown = text::views(specs@);
    if 0 <= i < specs@.len() && (forall|j: int|
        i < j < specs@.len() ==> (#[trigger] specs@[j]).key@ != specs@[i].key@) {
        assert forall|j: int| i < j < shown.len() implies (#[trigger] shown[j]).key
            != shown[i].key by {
            assert(specs@[j].key@ != specs@[i].key@);
        }
        lemma_form(shown, values@, i);
    }
    assert forall|key: Seq<char>| #[trigger] r@.dom().contains(key) implies exists|j: int|
        0 <= j < specs@.len() && (#[trigger] specs@[j]).key@ == key by {
        api::law_form_fills_fields(shown, values@, key);
        let j = choose|j: int| 0 <= j < shown.len() && (#[trigger] shown[j]).key == key;
        assert(specs@[j].key@ == key);
    }
}

/// What a form gives a field.
pub proof fn lemma_form(
    specs: Seq<model::FieldModel>,
    values: Map<Seq<char>, Seq<char>>,
    i: int,
)
    requires
        0 <= i < specs.len(),
        forall|j: int| i < j < specs.len() ==> (#[trigger] specs[j]).key != specs[i].key,
    ensures
        api::built(specs, values).dom().contains(specs[i].key),
        stands_for(
            api::built(specs, values)[specs[i].key],
            specs[i].kind,
            sent_for(values, specs[i].key),
        ),
    decreases specs.len(),
{
    let n = specs.len() - 1;
    assert(specs[n] == specs.last());
    if i < n {
        let rest = specs.drop_last();
        assert forall|j: int| i < j < rest.len() implies (#[trigger] rest[j]).key
            != rest[i].key by {
            assert(rest[j] == specs[j]);
        }
        lemma_form(rest, values, i);
    } else {
        reveal_strlit("");
        assert(""@ =~= Seq::empty());
        let raw = sent_for(values, specs[i].key);
        let value = api::built(specs, values)[specs[i].key];
        assert forall|m: nat|
            m <= u64::MAX && text::trimmed(raw) == #[trigger] text::decimal(m) && specs[i].kind
                is U32 implies value == model::ValueModel::Number(text::decimal(m)) by {
            law_decimal_reads_back(m, u64::MAX as nat);
        }
    }
}

/// The text `false` switches a truth value off, and so does no text at all.
pub proof fn law_false_is_off(value: model::ValueModel)
    ensures
        stands_for(value, model::FieldKindModel::Bool, "false"@) ==> value
            == model::ValueModel::Bool(false),
        stands_for(value, model::FieldKindModel::Bool, ""@) ==> value == model::ValueModel::Bool(
            false,
        ),
{
    reveal_strlit("true");
    reveal_strlit("false");
    assert("true"@.len() == 4);
    assert("false"@.len() == 5);
    reveal_strlit("");
}

/// The connection settings of the active protocol become those of the form, by the adapter's
/// fields; those of every other protocol stay, and so does all else. Without an adapter for the
/// protocol nothing changes.
pub proof fn law_set_connection(
    w: &mut WebState,
    req: ConnectionReq,
    r: Result<AfterSave, ApiError>,
    other: Seq<char>,
    i: int,
)
    requires
        call_ensures(set_connection, (w, req), r),
    ensures
        ({
            let before = old(w)@;
            let after = final(w)@;
            let p = before.shared.config.protocol;
            &&& r is Ok <==> before.caps.dom().contains(p)
            &&& r is Err ==> refused(r, 400, "no protocol selected"@) && after == before
            &&& r matches Ok(next) ==> {
                let fields = before.caps[p].connection_fields;
                let now = after.shared.config.connections;
                &&& next == AfterSave::Config
                &&& same_but_config(before, after)
                &&& after.shared.config == (config::ConfigModel {
                    connections: now,
                    ..before.shared.config
                })
                &&& now.dom().contains(p)
                &&& 0 <= i < fields.len() && (forall|j: int|
                    i < j < fields.len() ==> (#[trigger] fields[j]).key != fields[i].key)
                    ==> now[p].dom().contains(fields[i].key) && stands_for(
                    now[p][fields[i].key],
                    fields[i].kind,
                    sent_for(req.values@, fields[i].key),
                )
                &&& other != p ==> now.dom().contains(other)
                    == before.shared.config.connections.dom().contains(other) && now[other]
                    == before.shared.config.connections[other]
            }
        }),
{
    let before = old(w)@;
    let p = before.shared.config.protocol;
    if before.caps.dom().contains(p) {
        let fields = before.caps[p].connection_fields;
        if 0 <= i < fields.len() && (forall|j: int|
            i < j < fields.len() ==> (#[trigger] fields[j]).key != fields[i].key) {
            lemma_form(fields, req.values@, i);
        }
    }
}

/// A point that is saved says what the request says: whether it is enabled, its device and its tag
/// path without surrounding white space, its interval but at least a second, and its addressing by
/// the adapter's fields.
pub open spec fn as_requested(
    point: model::PointModel,
    req: PointReq,
    fields: Seq<model::FieldModel>,
    i: int,
) -> bool {
    &&& point.enabled == req.enabled
    &&& point.device_key == text::trimmed(req.device_key@)
    &&& point.tag_path == text::trimmed(req.tag_path@)
    &&& req.poll_interval_secs >= 1 ==> point.poll_interval_secs == req.poll_interval_secs
    &&& req.poll_interval_secs == 0 ==> point.poll_interval_secs == 1
    &&& 0 <= i < fields.len() && (forall|j: int|
        i < j < fields.len() ==> (#[trigger] fields[j]).key != fields[i].key)
        ==> point.addressing.dom().contains(fields[i].key) && stands_for(
        point.addressing[fields[i].key],
        fields[i].kind,
        sent_for(req.addressing@, fields[i].key),
    )
}

/// A new point comes last, and an edited one takes its own place; every other point stays where it
/// is and as it is, and nothing else changes. Without an adapter, or where the place is not there,
/// nothing changes at all.
pub proof fn law_save_point(
    w: &mut WebState,
    req: PointReq,
    r: Result<AfterSave, ApiError>,
    i: int,
    k: int,
)
    requires
        call_ensures(save_point, (w, req), r),
    ensures
        ({
            let before = old(w)@;
            let after = final(w)@;
            let points = before.shared.config.points;
            let now = after.shared.config.points;
            let p = before.shared.config.protocol;
            let fields = before.caps[p].addressing_fields;
            &&& !before.caps.dom().contains(p) ==> after == before && refused(
                r,
                400,
                "select a protocol first"@,
            )
            &&& before.caps.dom().contains(p) ==> match req.index {
                None => {
                    &&& r matches Ok(next) && next == AfterSave::Points
                    &&& same_but_points(before, after)
                    &&& now.len() == points.len() + 1
                    &&& as_requested(now[points.len() as int], req, fields, i)
                    &&& 0 <= k < points.len() ==> now[k] == points[k]
                },
                Some(at) => if at < points.len() {
                    &&& r matches Ok(next) && next == AfterSave::Points
                    &&& same_but_points(before, after)
                    &&& now.len() == points.len()
                    &&& as_requested(now[at as int], req, fields, i)
                    &&& 0 <= k < points.len() && k != at ==> now[k] == points[k]
                } else {
                    after == before && refused(r, 404, "no such point"@)
                },
            }
        }),
{
    let before = old(w)@;
    let p = before.shared.config.protocol;
    if before.caps.dom().contains(p) {
        let fields = before.caps[p].addressing_fields;
        if 0 <= i < fields.len() && (forall|j: int|
            i < j < fields.len() ==> (#[trigger] fields[j]).key != fields[i].key) {
            lemma_form(fields, req.addressing@, i);
        }
    }
}

/// Enabling or disabling a point changes that and nothing else.
pub proof fn law_toggle_point(
    w: &mut WebState,
    index: usize,
    req: ToggleReq,
    r: Result<AfterSave, ApiError>,
    k: int,
)
    requires
        call_ensures(toggle_point, (w, index, req), r),
    ensures
        ({
            let before = old(w)@;
            let after = final(w)@;
            let points = before.shared.config.points;
            let now = after.shared.config.points;
            &&& index >= points.len() ==> after == before && refused(r, 404, "no such point"@)
            &&& index < points.len() ==> {
                &&& r matches Ok(next) && next == AfterSave::Points
                &&& same_but_points(before, after)
                &&& now.len() == points.len()
                &&& now[index as int].enabled == req.enabled
                &&& now[index as int].device_key == points[index as int].device_key
                &&& now[index as int].addressing == points[index as int].addressing
                &&& now[index as int].tag_path == points[index as int].tag_path
                &&& now[index as int].poll_interval_secs == points[index as int].poll_interval_secs
                &&& 0 <= k < points.len() && k != index ==> now[k] == points[k]
            }
        }),
{
}

/// Removing a point takes that one and no other: those before it keep their places, and those
/// after it move up by one.
pub proof fn law_delete_point(
    w: &mut WebState,
    index: usize,
    r: Result<AfterSave, ApiError>,
    k: int,
)
    requires
        call_ensures(delete_point, (w, index), r),
    ensures
        ({
            let before = old(w)@;
            let after = final(w)@;
            let points = before.shared.config.points;
            let now = after.shared.config.points;
            &&& index >= points.len() ==> after == before && refused(r, 404, "no such point"@)
            &&& index < points.len() ==> {
                &&& r matches Ok(next) && next == AfterSave::Points
                &&& same_but_points(before, after)
                &&& now.len() == points.len() - 1
                &&& 0 <= k < index ==> now[k] == points[k]
                &&& index <= k < now.len() ==> now[k] == points[k + 1]
            }
        }),
{
}

/// Clearing removes every point and every status, says how many points there were, and changes
/// nothing else.
pub proof fn law_clear_points(w: &mut WebState, r: AfterSave)
    requires
        call_ensures(clear_points, (w,), r),
    ensures
        ({
            let before = old(w)@;
            let after = final(w)@;
            &&& after.shared.config.points.len() == 0
            &&& forall|identity: model::IdentityModel| #[trigger]
                known(after.shared.statuses, identity) is None
            &&& before.shared.config.points.len() <= usize::MAX ==> r == AfterSave::Cleared(
                before.shared.config.points.len() as usize,
            )
            &&& same_but_points(
                (state::WebModel {
                    shared: state::SharedModel {
                        statuses: after.shared.statuses,
                        ..before.shared
                    },
                    ..before
                }),
                after,
            )
        }),
{
}

/// The point made of a browsed one has that one's device, addressing and suggested tag path; it is
/// enabled and read every ten seconds.
pub proof fn law_browsed_point(w: &WebState, index: usize, r: Result<PointConfig, ApiError>)
    requires
        call_ensures(browsed_point, (w, index), r),
    ensures
        r is Ok <==> index < w@.shared.browsed.len(),
        r matches Ok(point) ==> {
            let found = w@.shared.browsed[index as int];
            &&& point@.device_key == found.device_key
            &&& point@.addressing == found.addressing
            &&& point@.tag_path == found.suggested_tag_path
            &&& point@.enabled
            &&& point@.poll_interval_secs == 10
        },
        r is Err ==> refused(r, 404, "no such browsed point"@),
{
}

/// A point that is added from a browse takes the place of the first point that is the same one, and
/// comes last where there is none; every other point stays where it is and as it is.
pub proof fn law_add_browsed_point(
    w: &mut WebState,
    point: PointConfig,
    identity: &PointIdentity,
    identities: &Vec<PointIdentity>,
    r: AfterSave,
    at: int,
    k: int,
)
    requires
        call_ensures(add_browsed_point, (w, point, identity, identities), r),
        identities@.len() == old(w)@.shared.config.points.len(),
    ensures
        ({
            let points = old(w)@.shared.config.points;
            let now = final(w)@.shared.config.points;
            &&& r == AfterSave::FromBrowse
            &&& same_but_points(old(w)@, final(w)@)
            &&& 0 <= at < identities@.len() && identities@[at]@ == identity@ && (forall|j: int|
                0 <= j < at ==> (#[trigger] identities@[j])@ != identity@) ==> {
                &&& now.len() == points.len()
                &&& now[at] == point@
                &&& 0 <= k < points.len() && k != at ==> now[k] == points[k]
            }
            &&& (forall|j: int| 0 <= j < identities@.len() ==> (#[trigger] identities@[j])@
                != identity@) ==> {
                &&& now.len() == points.len() + 1
                &&& now[points.len() as int] == point@
                &&& 0 <= k < points.len() ==> now[k] == points[k]
            }
        }),
{
    let ids = text::views(identities@);
    if 0 <= at < identities@.len() && identities@[at]@ == identity@ && (forall|j: int|
        0 <= j < at ==> (#[trigger] identities@[j])@ != identity@) {
        assert forall|j: int| 0 <= j < at implies ids[j] != identity@ by {
            assert(identities@[j]@ != identity@);
        }
        assert(api::first_at(ids, identity@, at));
        let c = choose|c: int| api::first_at(ids, identity@, c);
        assert(api::first_at(ids, identity@, c));
        assert(c == at);
    }
    if forall|j: int| 0 <= j < identities@.len() ==> (#[trigger] identities@[j])@ != identity@ {
        assert forall|c: int| !api::first_at(ids, identity@, c) by {
            if 0 <= c < ids.len() {
                assert(identities@[c]@ != identity@);
            }
        }
    }
}

/// Where a request does not say, a point is enabled and read every ten seconds.
pub proof fn law_point_defaults(enabled: bool, interval: u64)
    requires
        call_ensures(default_enabled, (), enabled),
        call_ensures(default_poll_interval, (), interval),
    ensures
        enabled,
        interval == 10,
{
}

/// A request whose configuration was not saved is refused with the reason, and nothing but the
/// status is told. One that was saved is a success, and the browsers are told last of what it
/// changed.
pub proof fn law_request_carried_through(
    w: &mut WebState,
    after: AfterSave,
    outcome: SaveOutcome,
    facts: &Vec<PointFacts>,
    now_ms: i64,
    r: Result<Json, ApiError>,
)
    requires
        call_ensures(finish_save, (w, after, outcome, facts, now_ms), r),
        old(w)@.shared.log_seq + 2 <= u64::MAX,
        facts@.len() == old(w)@.shared.config.points.len(),
    ensures
        r is Ok <==> outcome is Saved,
        same_but_status(old(w)@.shared, final(w)@.shared),
        outcome matches SaveOutcome::Invalid(e) ==> r matches Err(f) && f.status == 400
            && f.message@ == "Config invalid: "@ + e@ && sends_on(old(w)@.sent, final(w)@.sent, 1)
            && final(w)@.shared.status_line == "Config invalid: "@ + e@,
        outcome matches SaveOutcome::Failed(e) ==> r matches Err(f) && f.status == 400
            && f.message@ == "Save failed: "@ + e@ && sends_on(old(w)@.sent, final(w)@.sent, 1)
            && final(w)@.shared.status_line == "Save failed: "@ + e@,
        outcome is Saved ==> {
            let sent = final(w)@.sent;
            let n = old(w)@.sent.len() as int;
            let last = sent.last();
            &&& r matches Ok(body) && member(body@, "ok"@) == Some(JsonModel::Bool(true))
            &&& says(sent[n], "status_line"@, "Configuration saved"@)
            &&& match after {
                AfterSave::Config => {
                    &&& sends_on(old(w)@.sent, sent, 2)
                    &&& says(last, "type"@, "config"@)
                    &&& member(last, "config"@) == Some(
                        dto::redacted_json(old(w)@.shared.config),
                    )
                    &&& final(w)@.shared.status_line == "Configuration saved"@
                },
                AfterSave::Points => {
                    &&& sends_on(old(w)@.sent, sent, 2)
                    &&& says(last, "type"@, "points"@)
                    &&& member(last, "points"@) == Some(
                        state::points_document(old(w)@.shared, text::views(facts@)),
                    )
                    &&& final(w)@.shared.status_line == "Configuration saved"@
                },
                AfterSave::Cleared(removed) => {
                    &&& sends_on(old(w)@.sent, sent, 3)
                    &&& says(last, "type"@, "points"@)
                    &&& member(last, "points"@) == Some(
                        state::points_document(old(w)@.shared, text::views(facts@)),
                    )
                    &&& final(w)@.shared.status_line == "Cleared "@ + text::decimal(removed as nat)
                        + " configured point(s)."@
                    &&& r matches Ok(body) && counts(body@, "removed"@, removed as int)
                },
                AfterSave::FromBrowse => {
                    &&& sends_on(old(w)@.sent, sent, 3)
                    &&& says(last, "type"@, "points"@)
                    &&& member(last, "points"@) == Some(
                        state::points_document(old(w)@.shared, text::views(facts@)),
                    )
                    &&& final(w)@.shared.status_line == "Added point from browse"@
                },
            }
        },
{
    reveal_strlit("type");
    reveal_strlit("config");
    reveal_strlit("points");
    reveal_strlit("ok");
    reveal_strlit("removed");
    assert("type"@.len() == 4);
    assert("config"@.len() == 6);
    assert("points"@.len() == 6);
    assert("ok"@.len() == 2);
    assert("removed"@.len() == 7);
    assert("config"@[0] == 'c');
    assert("points"@[0] == 'p');
    let n = old(w)@.sent.len() as int;
    match outcome {
        SaveOutcome::Saved => {
            lemma_status(old(w)@, LogLevel::Info, "Configuration saved"@, now_ms);
            let v = state::status_set(old(w)@, LogLevel::Info, "Configuration saved"@, now_ms);
            let said = match after {
                AfterSave::Cleared(removed) => "Cleared "@ + text::decimal(removed as nat)
                    + " configured point(s)."@,
                _ => "Added point from browse"@,
            };
            lemma_status(v, LogLevel::Info, said, now_ms);
            let u = state::status_set(v, LogLevel::Info, said, now_ms);
            assert(v.sent[n] == v.sent.last());
            assert(u.sent.take(n + 1) == v.sent);
            assert(u.sent[n] == u.sent.take(n + 1)[n]);
            assert(u.sent.take(n) =~= u.sent.take(n + 1).take(n));
            assert(final(w)@.sent.take(n) =~= final(w)@.sent.drop_last().take(n));
            match after {
                AfterSave::Config | AfterSave::Points => {
                    assert(final(w)@.sent.drop_last() =~= v.sent);
                },
                _ => {
                    assert(final(w)@.sent.drop_last() =~= u.sent);
                    assert(state::points_document(u.shared, text::views(facts@))
                        == state::points_document(old(w)@.shared, text::views(facts@)));
                },
            }
        },
        SaveOutcome::Invalid(e) => lemma_status(
            old(w)@,
            LogLevel::Error,
            "Config invalid: "@ + e@,
            now_ms,
        ),
        SaveOutcome::Failed(e) => lemma_status(
            old(w)@,
            LogLevel::Error,
            "Save failed: "@ + e@,
            now_ms,
        ),
    }
}

} // verus!
