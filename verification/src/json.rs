//! The JSON documents that are sent to the browser.

use vstd::prelude::*;

use std::collections::VecDeque;

use crate::config;
use crate::config::AppConfig;
use crate::model;
use crate::model::{Addressing, Value};
use crate::table;
use crate::table::Duplicate;
use crate::text;

verus! {

/// A JSON document.
#[derive(Debug)]
pub enum Json {
    /// `null`.
    Null,
    /// `true` or `false`.
    Bool(bool),
    /// A number that is not negative.
    Uint(u64),
    /// A number.
    Int(i64),
    /// A string.
    Text(String),
    /// A value that came from a protocol adapter or from the configuration.
    Value(Value),
    /// An array.
    List(Vec<Json>),
    /// An object. Where a name occurs twice, the last one holds.
    Object(Vec<(String, Json)>),
    /// The configuration, as its own format writes it.
    Config(Box<AppConfig>),
}

/// What a [`Json`] document stands for.
pub enum JsonModel {
    Null,
    Bool(bool),
    Number(int),
    Text(Seq<char>),
    Value(model::ValueModel),
    List(Seq<JsonModel>),
    Object(Map<Seq<char>, JsonModel>),
    Config(config::ConfigModel),
}

/// What a document stands for.
pub open spec fn json_model(j: Json) -> JsonModel
    decreases j,
{
    match j {
        Json::Null => JsonModel::Null,
        Json::Bool(b) => JsonModel::Bool(b),
        Json::Uint(n) => JsonModel::Number(n as int),
        Json::Int(n) => JsonModel::Number(n as int),
        Json::Text(s) => JsonModel::Text(s@),
        Json::Value(v) => JsonModel::Value(v@),
        Json::List(v) => JsonModel::List(list_model(v@)),
        Json::Object(v) => JsonModel::Object(fields_model(v@)),
        Json::Config(c) => JsonModel::Config((*c)@),
    }
}

/// What the items of an array stand for.
pub open spec fn list_model(s: Seq<Json>) -> Seq<JsonModel>
    decreases s,
{
    if s.len() == 0 {
        Seq::empty()
    } else {
        list_model(s.subrange(0, s.len() - 1)).push(json_model(s[s.len() - 1]))
    }
}

/// What the members of an object stand for.
pub open spec fn fields_model(s: Seq<(String, Json)>) -> Map<Seq<char>, JsonModel>
    decreases s,
{
    if s.len() == 0 {
        Map::empty()
    } else {
        fields_model(s.subrange(0, s.len() - 1)).insert(
            s[s.len() - 1].0@,
            json_model(s[s.len() - 1].1),
        )
    }
}

impl View for Json {
    type V = JsonModel;

    open spec fn view(&self) -> JsonModel {
        json_model(*self)
    }
}

/// A list of documents holds what its documents hold.
pub proof fn lemma_list_model(s: Seq<Json>)
    ensures
        list_model(s) == text::views(s),
    decreases s.len(),
{
    if s.len() > 0 {
        lemma_list_model(s.subrange(0, s.len() - 1));
    }
    assert(list_model(s) =~= text::views(s));
}

/// `m` with the member `key`, where there is a value for it.
pub open spec fn with_opt(
    m: Map<Seq<char>, JsonModel>,
    key: Seq<char>,
    value: Option<JsonModel>,
) -> Map<Seq<char>, JsonModel> {
    match value {
        Some(v) => m.insert(key, v),
        None => m,
    }
}

/// The members of an object under construction.
pub type Fields = Vec<(String, Json)>;

/// Sets the member `key`.
pub fn put(fields: &mut Fields, key: &str, value: Json)
    ensures
        fields_model(final(fields)@) == fields_model(old(fields)@).insert(key@, value@),
{
    let ghost before = fields@;
    fields.push((key.to_string(), value));
    assert(fields@.subrange(0, fields@.len() - 1) =~= before);
}

/// Sets the member `key`, where there is a value for it.
pub fn put_opt(fields: &mut Fields, key: &str, value: Option<Json>)
    ensures
        fields_model(final(fields)@) == with_opt(fields_model(old(fields)@), key@, text::opt(value)),
{
    match value {
        Some(v) => put(fields, key, v),
        None => {},
    }
}

/// A string or nothing, as JSON.
pub open spec fn opt_text(o: Option<Seq<char>>) -> Option<JsonModel> {
    match o {
        Some(s) => Some(JsonModel::Text(s)),
        None => None,
    }
}

/// A string or nothing, as JSON.
pub fn text_opt(o: &Option<String>) -> (r: Option<Json>)
    ensures
        text::opt(r) == opt_text(text::opt(*o)),
{
    match o {
        Some(s) => Some(Json::Text(s.clone())),
        None => None,
    }
}

/// A value or nothing, as JSON.
pub open spec fn opt_value(o: Option<model::ValueModel>) -> Option<JsonModel> {
    match o {
        Some(v) => Some(JsonModel::Value(v)),
        None => None,
    }
}

/// A value or nothing, as JSON.
pub fn value_opt(o: &Option<Value>) -> (r: Option<Json>)
    ensures
        text::opt(r) == opt_value(text::opt(*o)),
{
    match o {
        Some(v) => Some(Json::Value(v.duplicate())),
        None => None,
    }
}

/// Something that is sent as a JSON document, which its view is.
pub trait ToJson: View<V = JsonModel> + Sized {
    /// The document.
    fn to_json(&self) -> (r: Json)
        ensures
            r@ == self@,
    ;
}

/// The documents of a list, as an array.
pub fn list_json<T: ToJson>(items: &Vec<T>) -> (r: Json)
    ensures
        r@ == JsonModel::List(text::views(items@)),
{
    let mut out: Vec<Json> = Vec::new();
    let mut i: usize = 0;
    while i < items.len()
        invariant
            i <= items.len(),
            text::views(out@) =~= text::views(items@).take(i as int),
        decreases items.len() - i,
    {
        let ghost before = out@;
        out.push(items[i].to_json());
        proof {
            assert(text::views(out@) =~= text::views(before).push(items@[i as int]@));
            assert(text::views(items@).take(i + 1) =~= text::views(items@).take(i as int).push(
                items@[i as int]@,
            ));
        }
        i = i + 1;
    }
    proof {
        lemma_list_model(out@);
        assert(text::views(items@).take(i as int) =~= text::views(items@));
    }
    Json::List(out)
}

/// The documents of a queue, as an array.
pub fn queue_json<T: ToJson>(items: &VecDeque<T>) -> (r: Json)
    ensures
        r@ == JsonModel::List(text::views(items@)),
{
    let mut out: Vec<Json> = Vec::new();
    let mut i: usize = 0;
    while i < items.len()
        invariant
            i <= items@.len(),
            text::views(out@) =~= text::views(items@).take(i as int),
        decreases items@.len() - i,
    {
        let ghost before = out@;
        out.push(items[i].to_json());
        proof {
            assert(text::views(out@) =~= text::views(before).push(items@[i as int]@));
            assert(text::views(items@).take(i + 1) =~= text::views(items@).take(i as int).push(
                items@[i as int]@,
            ));
        }
        i = i + 1;
    }
    proof {
        lemma_list_model(out@);
        assert(text::views(items@).take(i as int) =~= text::views(items@));
    }
    Json::List(out)
}

/// Texts as an array of strings.
pub open spec fn texts_json(s: Seq<Seq<char>>) -> JsonModel {
    JsonModel::List(Seq::new(s.len(), |i: int| JsonModel::Text(s[i])))
}

/// Texts as an array of strings.
pub fn texts(items: &Vec<String>) -> (r: Json)
    ensures
        r@ == texts_json(text::views(items@)),
{
    let mut out: Vec<Json> = Vec::new();
    let mut i: usize = 0;
    while i < items.len()
        invariant
            i <= items.len(),
            out@.len() == i,
            forall|j: int| 0 <= j < i ==> (#[trigger] out@[j])@ == JsonModel::Text(items@[j]@),
        decreases items.len() - i,
    {
        out.push(Json::Text(items[i].clone()));
        i = i + 1;
    }
    proof {
        lemma_list_model(out@);
        let target = Seq::new(
            text::views(items@).len(),
            |i: int| JsonModel::Text(text::views(items@)[i]),
        );
        assert(list_model(out@) =~= target);
    }
    Json::List(out)
}

/// Named values as an object.
pub open spec fn addressing_json(a: model::AddressingModel) -> JsonModel {
    JsonModel::Object(a.map_values(|v: model::ValueModel| JsonModel::Value(v)))
}

/// Named values as an object.
pub fn addressing(a: &Addressing) -> (r: Json)
    ensures
        r@ == addressing_json(a@),
{
    let mut out: Fields = Vec::new();
    let mut i: usize = 0;
    let ghost all = a.listed();
    let ghost f = |v: model::ValueModel| JsonModel::Value(v);
    assert(fields_model(out@) =~= table::entries_map(all.take(0)).map_values(f));
    while i < a.len()
        invariant
            i <= all.len(),
            all == a.listed(),
            f == (|v: model::ValueModel| JsonModel::Value(v)),
            fields_model(out@) == table::entries_map(all.take(i as int)).map_values(f),
        decreases all.len() - i,
    {
        let e = a.entry(i);
        put(&mut out, e.0.as_str(), Json::Value(e.1.duplicate()));
        proof {
            assert(all.take(i + 1).drop_last() =~= all.take(i as int));
            let m = table::entries_map(all.take(i as int));
            let k = all[i as int].0@;
            let v = all[i as int].1@;
            assert(m.insert(k, v).map_values(f) =~= m.map_values(f).insert(k, f(v)));
        }
        i = i + 1;
    }
    assert(all.take(all.len() as int) =~= all);
    Json::Object(out)
}

} // verus!
