//! A small map kept as a list of entries in which no key occurs twice.

use vstd::prelude::*;

use crate::text;

verus! {

/// A key that can be compared, and what two equal keys have in common.
pub trait TableKey: Sized {
    /// What identifies the key.
    type Model;

    /// The key's identity.
    spec fn key(&self) -> Self::Model;

    /// Whether two keys are the same key.
    fn same(&self, other: &Self) -> (r: bool)
        ensures
            r == (self.key() == other.key()),
    ;

    /// A second copy of the key.
    fn copy_key(&self) -> (r: Self)
        ensures
            r.key() == self.key(),
    ;
}

impl TableKey for String {
    type Model = Seq<char>;

    open spec fn key(&self) -> Seq<char> {
        self@
    }

    fn same(&self, other: &Self) -> (r: bool) {
        *self == *other
    }

    fn copy_key(&self) -> (r: Self) {
        self.clone()
    }
}

/// A choice of what to keep of a value.
pub trait Keep<V: View> {
    /// What is kept of a value.
    spec fn kept(&self, v: V::V) -> Option<V::V>;

    /// What is kept of a value.
    fn keep(&self, v: V) -> (r: Option<V>)
        ensures
            text::opt(r) == self.kept(v@),
    ;
}

/// A choice among values.
pub trait Accept<V: View> {
    /// Whether a value is accepted.
    spec fn accepted(&self, v: V::V) -> bool;

    /// Whether a value is accepted.
    fn accept(&self, v: &V) -> (r: bool)
        ensures
            r == self.accepted(v@),
    ;
}

/// A map from keys to values.
#[derive(Debug)]
pub struct Table<K: TableKey, V: View> {
    entries: Vec<(K, V)>,
}

/// The map that a list of entries stands for.
pub open spec fn entries_map<K: TableKey, V: View>(s: Seq<(K, V)>) -> Map<K::Model, V::V>
    decreases s.len(),
{
    if s.len() == 0 {
        Map::empty()
    } else {
        entries_map(s.drop_last()).insert(s.last().0.key(), s.last().1@)
    }
}

/// No key occurs twice.
pub open spec fn distinct_keys<K: TableKey, V>(s: Seq<(K, V)>) -> bool {
    forall|i: int, j: int| 0 <= i < j < s.len() ==> s[i].0.key() != s[j].0.key()
}

/// The entries of `m` whose values `g` keeps, with the values that `g` makes of them.
pub open spec fn kept<K, V>(m: Map<K, V>, g: spec_fn(V) -> Option<V>) -> Map<K, V> {
    Map::new(|k: K| m.dom().contains(k) && g(m[k]) is Some, |k: K| g(m[k])->Some_0)
}

proof fn lemma_map_of_entries<K: TableKey, V: View>(s: Seq<(K, V)>)
    requires
        distinct_keys(s),
    ensures
        entries_map(s).dom().finite(),
        forall|k: K::Model|
            #[trigger] entries_map(s).dom().contains(k) ==> exists|i: int|
                0 <= i < s.len() && (#[trigger] s[i]).0.key() == k,
        forall|i: int|
            0 <= i < s.len() ==> entries_map(s).dom().contains((#[trigger] s[i]).0.key())
                && entries_map(s)[s[i].0.key()] == s[i].1@,
    decreases s.len(),
{
    if s.len() > 0 {
        let t = s.drop_last();
        assert(distinct_keys(t)) by {
            assert forall|i: int, j: int|
                0 <= i < j < t.len() implies t[i].0.key() != t[j].0.key() by {
                assert(t[i] == s[i] && t[j] == s[j]);
            }
        }
        lemma_map_of_entries(t);
        assert forall|k: K::Model| #[trigger]
            entries_map(s).dom().contains(k) implies exists|i: int|
            0 <= i < s.len() && (#[trigger] s[i]).0.key() == k by {
            if k == s.last().0.key() {
                assert(s[s.len() - 1].0.key() == k);
            } else {
                let i = choose|i: int| 0 <= i < t.len() && (#[trigger] t[i]).0.key() == k;
                assert(s[i].0.key() == k);
            }
        }
        assert forall|i: int| 0 <= i < s.len() implies entries_map(s).dom().contains(
            (#[trigger] s[i]).0.key(),
        ) && entries_map(s)[s[i].0.key()] == s[i].1@ by {
            if i < s.len() - 1 {
                assert(t[i] == s[i]);
                assert(s[i].0.key() != s[s.len() - 1].0.key());
            }
        }
    }
}

impl<K: TableKey, V: View> View for Table<K, V> {
    type V = Map<K::Model, V::V>;

    open spec fn view(&self) -> Map<K::Model, V::V> {
        entries_map(self.listed())
    }
}

impl<K: TableKey, V: View> Table<K, V> {
    /// The entries in the order in which they are kept.
    pub closed spec fn listed(&self) -> Seq<(K, V)> {
        self.entries@
    }

    /// No key occurs twice.
    #[verifier::type_invariant]
    spec fn distinct(&self) -> bool {
        distinct_keys(self.entries@)
    }

    /// A table without entries.
    pub fn new() -> (r: Self)
        ensures
            r.listed() == Seq::<(K, V)>::empty(),
            r@ == Map::<K::Model, V::V>::empty(),
    {
        Table { entries: Vec::new() }
    }

    /// The number of entries.
    pub fn len(&self) -> (r: usize)
        ensures
            r == self.listed().len(),
    {
        self.entries.len()
    }

    /// The entry at a place in the list.
    pub fn entry(&self, i: usize) -> (r: &(K, V))
        requires
            i < self.listed().len(),
        ensures
            *r == self.listed()[i as int],
    {
        &self.entries[i]
    }

    /// Where the entry for `key` stands.
    fn find(&self, key: &K) -> (r: Option<usize>)
        ensures
            match r {
                Some(i) => i < self.entries@.len() && self.entries@[i as int].0.key() == key.key()
                    && self@.dom().contains(key.key())
                    && self@[key.key()] == self.entries@[i as int].1@,
                None => !self@.dom().contains(key.key()),
            },
    {
        proof {
            use_type_invariant(self);
            lemma_map_of_entries(self.entries@);
        }
        let mut i: usize = 0;
        while i < self.entries.len()
            invariant
                i <= self.entries@.len(),
                forall|j: int| 0 <= j < i ==> (#[trigger] self.entries@[j]).0.key() != key.key(),
                distinct_keys(self.entries@),
            decreases self.entries@.len() - i,
        {
            if self.entries[i].0.same(key) {
                proof {
                    lemma_map_of_entries(self.entries@);
                }
                return Some(i);
            }
            i = i + 1;
        }
        None
    }

    /// The value kept for `key`.
    pub fn get(&self, key: &K) -> (r: Option<&V>)
        ensures
            match r {
                Some(v) => self@.dom().contains(key.key()) && v@ == self@[key.key()],
                None => !self@.dom().contains(key.key()),
            },
    {
        match self.find(key) {
            Some(i) => Some(&self.entries[i].1),
            None => None,
        }
    }

    /// Whether there is an entry for `key`.
    pub fn contains(&self, key: &K) -> (r: bool)
        ensures
            r == self@.dom().contains(key.key()),
    {
        self.find(key).is_some()
    }

    /// Sets the value for `key`.
    pub fn insert(&mut self, key: K, value: V)
        ensures
            final(self)@ == old(self)@.insert(key.key(), value@),
    {
        proof {
            use_type_invariant(&*self);
        }
        let ghost before = self.entries@;
        let place = self.find(&key);
        let mut entries: Vec<(K, V)> = Vec::new();
        std::mem::swap(&mut self.entries, &mut entries);
        match place {
            Some(i) => {
                entries[i] = (key, value);
                proof {
                    let after = entries@;
                    assert(distinct_keys(after)) by {
                        assert forall|a: int, b: int|
                            0 <= a < b < after.len() implies after[a].0.key()
                            != after[b].0.key() by {
                            assert(before[a].0.key() != before[b].0.key());
                        }
                    }
                    lemma_map_of_entries(before);
                    lemma_map_of_entries(after);
                    let target = entries_map(before).insert(key.key(), value@);
                    assert forall|k: K::Model| target.dom().contains(k) implies exists|j: int|
                        0 <= j < after.len() && (#[trigger] after[j]).0.key() == k by {
                        if k == key.key() {
                            assert(after[i as int].0.key() == k);
                        } else {
                            assert(entries_map(before).dom().contains(k));
                            let j = choose|j: int|
                                0 <= j < before.len() && (#[trigger] before[j]).0.key() == k;
                            assert(after[j].0.key() == k);
                        }
                    }
                    lemma_same_map(after, target);
                }
            },
            None => {
                entries.push((key, value));
                proof {
                    let after = entries@;
                    assert(after.drop_last() =~= before);
                    lemma_map_of_entries(before);
                    assert(distinct_keys(after)) by {
                        assert forall|a: int, b: int|
                            0 <= a < b < after.len() implies after[a].0.key()
                            != after[b].0.key() by {
                            assert(before[a] == after[a]);
                            if b < before.len() {
                                assert(before[b] == after[b]);
                            } else {
                                assert(entries_map(before).dom().contains(before[a].0.key()));
                            }
                        }
                    }
                }
            },
        }
        self.entries = entries;
    }

    /// Drops the entry for `key`.
    pub fn remove(&mut self, key: &K)
        ensures
            final(self)@ == old(self)@.remove(key.key()),
    {
        proof {
            use_type_invariant(&*self);
        }
        let ghost before = self.entries@;
        let place = self.find(key);
        let mut entries: Vec<(K, V)> = Vec::new();
        std::mem::swap(&mut self.entries, &mut entries);
        match place {
            Some(i) => {
                let _gone = entries.remove(i);
                proof {
                    let after = entries@;
                    assert forall|a: int| 0 <= a < after.len() implies #[trigger] after[a] == before[
                        if a < i { a } else { a + 1 }] by {}
                    assert(distinct_keys(after)) by {
                        assert forall|a: int, b: int|
                            0 <= a < b < after.len() implies after[a].0.key()
                            != after[b].0.key() by {
                            let c = if a < i { a } else { a + 1 };
                            let d = if b < i { b } else { b + 1 };
                            assert(before[c].0.key() != before[d].0.key());
                        }
                    }
                    lemma_map_of_entries(before);
                    lemma_map_of_entries(after);
                    let target = entries_map(before).remove(key.key());
                    assert forall|k: K::Model| target.dom().contains(k) implies exists|j: int|
                        0 <= j < after.len() && (#[trigger] after[j]).0.key() == k by {
                        assert(entries_map(before).dom().contains(k));
                        let j = choose|j: int|
                            0 <= j < before.len() && (#[trigger] before[j]).0.key() == k;
                        let m = if j < i { j } else { j - 1 };
                        assert(after[m].0.key() == k);
                    }
                    assert forall|j: int| 0 <= j < after.len() implies target.dom().contains(
                        (#[trigger] after[j]).0.key(),
                    ) && target[after[j].0.key()] == after[j].1@ by {
                        let c = if j < i { j } else { j + 1 };
                        assert(after[j] == before[c]);
                        assert(before[c].0.key() != before[i as int].0.key());
                    }
                    lemma_same_map(after, target);
                }
            },
            None => {
                proof {
                    assert(old(self)@ =~= old(self)@.remove(key.key()));
                }
            },
        }
        self.entries = entries;
    }

    /// Drops every entry.
    pub fn clear(&mut self)
        ensures
            final(self)@ == Map::<K::Model, V::V>::empty(),
    {
        self.entries = Vec::new();
    }

    /// Replaces every value by what `f` makes of it, and drops the entries that `f` keeps nothing
    /// of.
    pub fn rebuild<F: Keep<V>>(&mut self, f: &F)
        ensures
            final(self)@ == kept(old(self)@, |v: V::V| f.kept(v)),
    {
        let ghost g = |v: V::V| f.kept(v);
        proof {
            use_type_invariant(&*self);
        }
        let mut before: Vec<(K, V)> = Vec::new();
        std::mem::swap(&mut self.entries, &mut before);
        let ghost all = before@;
        let mut after: Vec<(K, V)> = Vec::new();
        assert(kept(entries_map(all.take(0)), g) =~= Map::empty());
        for e in iter: before
            invariant
                iter.seq() == all,
                distinct_keys(all),
                g == (|v: V::V| f.kept(v)),
                distinct_keys(after@),
                forall|j: int|
                    0 <= j < after@.len() ==> exists|i: int|
                        0 <= i < iter.index() && (#[trigger] all[i]).0.key() == (
                        #[trigger] after@[j]).0.key(),
                entries_map(after@) == kept(entries_map(all.take(iter.index())), g),
        {
            let ghost n = iter.index();
            let ghost done = after@;
            proof {
                assert(e == all[n]);
                assert(all.take(n + 1).drop_last() =~= all.take(n));
                assert(all.take(n + 1).last() == all[n]);
                assert forall|j: int| 0 <= j < done.len() implies (#[trigger] done[j]).0.key()
                    != all[n].0.key() by {
                    let i = choose|i: int|
                        0 <= i < n && (#[trigger] all[i]).0.key() == done[j].0.key();
                    assert(all[i].0.key() != all[n].0.key());
                }
                assert(distinct_keys(all.take(n))) by {
                    assert forall|a: int, b: int|
                        0 <= a < b < n implies all.take(n)[a].0.key()
                        != all.take(n)[b].0.key() by {
                        assert(all[a].0.key() != all[b].0.key());
                    }
                }
                lemma_map_of_entries(all.take(n));
                if entries_map(all.take(n)).dom().contains(all[n].0.key()) {
                    let i = choose|i: int|
                        0 <= i < n && (#[trigger] all.take(n)[i]).0.key() == all[n].0.key();
                    assert(all[i].0.key() != all[n].0.key());
                }
            }
            let (k, v) = e;
            match f.keep(v) {
                Some(w) => {
                    after.push((k, w));
                    proof {
                        assert(after@.drop_last() =~= done);
                        assert forall|j: int| 0 <= j < after@.len() implies exists|i: int|
                            0 <= i < n + 1 && (#[trigger] all[i]).0.key() == (
                            #[trigger] after@[j]).0.key() by {
                            if j < done.len() {
                                assert(after@[j] == done[j]);
                            } else {
                                assert(all[n].0.key() == after@[j].0.key());
                            }
                        }
                        assert(entries_map(after@) =~= kept(entries_map(all.take(n + 1)), g));
                    }
                },
                None => {
                    proof {
                        assert(entries_map(after@) =~= kept(entries_map(all.take(n + 1)), g));
                    }
                },
            }
        }
        assert(all.take(all.len() as int) =~= all);
        self.entries = after;
    }

    /// How many values `f` accepts.
    pub fn count<F: Accept<V>>(&self, f: &F) -> (r: usize)
        ensures
            r == self@.dom().filter(|k: K::Model| f.accepted(self@[k])).len(),
    {
        let ghost p = |v: V::V| f.accepted(v);
        proof {
            use_type_invariant(self);
        }
        let mut r: usize = 0;
        let mut i: usize = 0;
        let ghost all = self.entries@;
        assert(entries_map(all.take(0)).dom().filter(|k: K::Model| p(entries_map(all.take(0))[k]))
            =~= Set::empty());
        while i < self.entries.len()
            invariant
                i <= all.len(),
                r <= i,
                all == self.entries@,
                distinct_keys(all),
                p == (|v: V::V| f.accepted(v)),
                r == entries_map(all.take(i as int)).dom().filter(
                    |k: K::Model| p(entries_map(all.take(i as int))[k]),
                ).len(),
            decreases all.len() - i,
        {
            proof {
                let n = i as int;
                assert(all.take(n + 1).drop_last() =~= all.take(n));
                assert(distinct_keys(all.take(n))) by {
                    assert forall|a: int, b: int|
                        0 <= a < b < n implies all.take(n)[a].0.key()
                        != all.take(n)[b].0.key() by {
                        assert(all[a].0.key() != all[b].0.key());
                    }
                }
                lemma_map_of_entries(all.take(n));
                let m = entries_map(all.take(n));
                let k0 = all[n].0.key();
                if m.dom().contains(k0) {
                    let j = choose|j: int| 0 <= j < n && (#[trigger] all.take(n)[j]).0.key() == k0;
                    assert(all[j].0.key() != all[n].0.key());
                }
                let m2 = entries_map(all.take(n + 1));
                let s = m.dom().filter(|k: K::Model| p(m[k]));
                let s2 = m2.dom().filter(|k: K::Model| p(m2[k]));
                assert(m2 == m.insert(k0, all[n].1@));
                m.dom().lemma_len_filter(|k: K::Model| p(m[k]));
                if p(all[n].1@) {
                    assert(s2 =~= s.insert(k0));
                } else {
                    assert(s2 =~= s);
                }
            }
            if f.accept(&self.entries[i].1) {
                r = r + 1;
            }
            i = i + 1;
        }
        assert(all.take(all.len() as int) =~= all);
        assert(self@.dom().filter(|k: K::Model| f.accepted(self@[k])) =~= self@.dom().filter(
            |k: K::Model| p(self@[k]),
        ));
        r
    }
}

/// A value of which a second copy can be made.
pub trait Duplicate: View + Sized {
    /// A second copy of the value.
    fn duplicate(&self) -> (r: Self)
        ensures
            r@ == self@,
    ;
}

impl Duplicate for String {
    fn duplicate(&self) -> (r: Self) {
        self.clone()
    }
}

impl<K: TableKey, V: Duplicate> Duplicate for Table<K, V> {
    fn duplicate(&self) -> (r: Self) {
        let mut r: Table<K, V> = Table::new();
        let mut i: usize = 0;
        let ghost all = self.entries@;
        while i < self.entries.len()
            invariant
                i <= all.len(),
                all == self.entries@,
                r@ == entries_map(all.take(i as int)),
            decreases all.len() - i,
        {
            proof {
                assert(all.take(i + 1).drop_last() =~= all.take(i as int));
            }
            r.insert(self.entries[i].0.copy_key(), self.entries[i].1.duplicate());
            i = i + 1;
        }
        assert(all.take(all.len() as int) =~= all);
        r
    }
}

/// Copies of the items of a list.
pub fn duplicate_all<T: Duplicate>(v: &Vec<T>) -> (r: Vec<T>)
    ensures
        text::views(r@) == text::views(v@),
{
    let mut r: Vec<T> = Vec::new();
    let mut i: usize = 0;
    while i < v.len()
        invariant
            i <= v.len(),
            text::views(r@) == text::views(v@.take(i as int)),
        decreases v.len() - i,
    {
        let ghost before = r@;
        r.push(v[i].duplicate());
        proof {
            text::lemma_views_push(before, r@.last());
            assert(r@ =~= before.push(r@.last()));
            text::lemma_views_push(v@.take(i as int), v@[i as int]);
            assert(v@.take(i + 1) =~= v@.take(i as int).push(v@[i as int]));
        }
        i = i + 1;
    }
    assert(v@.take(i as int) =~= v@);
    r
}

/// A copy of an optional value.
pub fn duplicate_opt<T: Duplicate>(v: &Option<T>) -> (r: Option<T>)
    ensures
        text::opt(r) == text::opt(*v),
{
    match v {
        Some(x) => Some(x.duplicate()),
        None => None,
    }
}

/// A map that holds exactly the entries of `s` is the map of `s`.
proof fn lemma_same_map<K: TableKey, V: View>(s: Seq<(K, V)>, m: Map<K::Model, V::V>)
    requires
        distinct_keys(s),
        forall|k: K::Model|
            m.dom().contains(k) ==> exists|i: int|
                0 <= i < s.len() && (#[trigger] s[i]).0.key() == k,
        forall|i: int|
            0 <= i < s.len() ==> m.dom().contains((#[trigger] s[i]).0.key())
                && m[s[i].0.key()] == s[i].1@,
    ensures
        entries_map(s) == m,
{
    lemma_map_of_entries(s);
    assert forall|k: K::Model| entries_map(s).dom().contains(k) == m.dom().contains(k) by {
        if m.dom().contains(k) {
            let i = choose|i: int| 0 <= i < s.len() && (#[trigger] s[i]).0.key() == k;
            assert(entries_map(s).dom().contains(s[i].0.key()));
        }
        if entries_map(s).dom().contains(k) {
            let i = choose|i: int| 0 <= i < s.len() && (#[trigger] s[i]).0.key() == k;
            assert(m.dom().contains(s[i].0.key()));
        }
    }
    assert forall|k: K::Model| m.dom().contains(k) implies entries_map(s)[k] == m[k] by {
        let i = choose|i: int| 0 <= i < s.len() && (#[trigger] s[i]).0.key() == k;
        assert(entries_map(s)[s[i].0.key()] == s[i].1@);
    }
    assert(entries_map(s) =~= m);
}

} // verus!
