//! Laws of tables and of documents under construction.

use vstd::prelude::*;

use std::collections::VecDeque;

use crate::json::{list_json, put, put_opt, queue_json, Fields, Json, JsonModel, ToJson};
use crate::laws::member;
use crate::table::{duplicate_all, duplicate_opt, Duplicate, Keep, Table, TableKey};
use crate::text;

verus! {

/// What was set for a key is read for it, and nothing else changes.
pub proof fn law_table_insert<K: TableKey, V: View>(
    t: &mut Table<K, V>,
    key: K,
    value: V,
    u: &Table<K, V>,
    other: &K,
    r: Option<&V>,
)
    requires
        call_ensures(Table::<K, V>::insert, (t, key, value), ()),
        call_ensures(Table::<K, V>::get, (u, other), r),
        *u == *final(t),
    ensures
        other.key() == key.key() ==> r is Some && r->Some_0@ == value@,
        other.key() != key.key() && old(t)@.dom().contains(other.key()) ==> r is Some
            && r->Some_0@ == old(t)@[other.key()],
        other.key() != key.key() && !old(t)@.dom().contains(other.key()) ==> r is None,
{
}

/// What was dropped is not there any more, and nothing else changes.
pub proof fn law_table_remove<K: TableKey, V: View>(
    t: &mut Table<K, V>,
    key: &K,
    u: &Table<K, V>,
    other: &K,
    r: Option<&V>,
    there: bool,
)
    requires
        call_ensures(Table::<K, V>::remove, (t, key), ()),
        call_ensures(Table::<K, V>::get, (u, other), r),
        call_ensures(Table::<K, V>::contains, (u, other), there),
        *u == *final(t),
    ensures
        there <==> r is Some,
        other.key() == key.key() ==> r is None,
        other.key() != key.key() && old(t)@.dom().contains(other.key()) ==> r is Some
            && r->Some_0@ == old(t)@[other.key()],
        other.key() != key.key() && !old(t)@.dom().contains(other.key()) ==> r is None,
{
}

/// A new table and a cleared one hold nothing.
pub proof fn law_table_empty<K: TableKey, V: View>(
    t: &mut Table<K, V>,
    fresh: Table<K, V>,
    u: &Table<K, V>,
    key: &K,
    r: Option<&V>,
)
    requires
        call_ensures(Table::<K, V>::clear, (t,), ()),
        call_ensures(Table::<K, V>::new, (), fresh),
        call_ensures(Table::<K, V>::get, (u, key), r),
        *u == *final(t) || *u == fresh,
    ensures
        r is None,
{
}

/// What is kept of a table is what its choice keeps of each value, under the same key.
pub proof fn law_table_rebuild<K: TableKey, V: View, F: Keep<V>>(
    t: &mut Table<K, V>,
    f: &F,
    u: &Table<K, V>,
    key: &K,
    r: Option<&V>,
)
    requires
        call_ensures(Table::<K, V>::rebuild::<F>, (t, f), ()),
        call_ensures(Table::<K, V>::get, (u, key), r),
        *u == *final(t),
    ensures
        !old(t)@.dom().contains(key.key()) ==> r is None,
        old(t)@.dom().contains(key.key()) ==> text::opt(r) == f.kept(old(t)@[key.key()]),
{
}

/// A copy holds what it is a copy of.
pub proof fn law_copies<T: Duplicate>(
    v: &Vec<T>,
    copies: Vec<T>,
    o: &Option<T>,
    copy: Option<T>,
    i: int,
)
    requires
        call_ensures(duplicate_all::<T>, (v,), copies),
        call_ensures(duplicate_opt::<T>, (o,), copy),
    ensures
        copies@.len() == v@.len(),
        0 <= i < v@.len() ==> copies@[i]@ == v@[i]@,
        copy is Some <==> *o is Some,
        copy matches Some(c) ==> c@ == o->Some_0@,
{
    let a = text::views(copies@);
    let b = text::views(v@);
    assert(a.len() == copies@.len() && b.len() == v@.len());
    if 0 <= i < v@.len() {
        assert(a[i] == copies@[i]@ && b[i] == v@[i]@);
    }
}

/// A member that is set is there, and the others are as they were; one without a value is left out.
pub proof fn law_put(
    fields: &mut Fields,
    key: &str,
    value: Json,
    more: &mut Fields,
    optional: Option<Json>,
    other: Seq<char>,
)
    requires
        call_ensures(put, (fields, key, value), ()),
        call_ensures(put_opt, (more, key, optional), ()),
    ensures
        member(Json::Object(*final(fields))@, key@) == Some(value@),
        other != key@ ==> member(Json::Object(*final(fields))@, other) == member(
            Json::Object(*old(fields))@,
            other,
        ),
        optional matches Some(v) ==> member(Json::Object(*final(more))@, key@) == Some(v@),
        optional is None || other != key@ ==> member(Json::Object(*final(more))@, other) == member(
            Json::Object(*old(more))@,
            other,
        ),
{
}

/// A list of documents is an array of them in their order.
pub proof fn law_lists<T: ToJson>(
    items: &Vec<T>,
    list: Json,
    queue: &VecDeque<T>,
    queued: Json,
    i: int,
)
    requires
        call_ensures(list_json::<T>, (items,), list),
        call_ensures(queue_json::<T>, (queue,), queued),
    ensures
        list@ matches JsonModel::List(a) && a.len() == items@.len() && (0 <= i < items@.len()
            ==> a[i] == items@[i]@),
        queued@ matches JsonModel::List(b) && b.len() == queue@.len() && (0 <= i < queue@.len()
            ==> b[i] == queue@[i]@),
{
}

} // verus!
