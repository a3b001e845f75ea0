//! Script-identifier registry storage.
//!
//! The registry maps a canonical module URL to the script identifier the
//! engine assigned when it parsed that script.  The storage exposes the
//! narrow get/insert surface of a concurrent map, so the orchestrator is
//! indifferent to the storage strategy behind it.  [`MaybeDashMap`] is the
//! single-owner strategy: one task reads and writes it, so plain sequential
//! storage suffices and the whole strategy is verified.  [`SharedDashMap`]
//! is the thread-safe strategy for multi-threaded deployments: a
//! lock-striped concurrent map, consumed through trusted contracts, with
//! the same get/insert surface.

use vstd::prelude::*;

verus! {

/// The mathematical map a sequence of entries holds: every key maps to the
/// value of its latest entry.
spec fn spec_entries_map(s: Seq<(String, String)>) -> Map<Seq<char>, Seq<char>>
    decreases s.len(),
{
    if s.len() == 0 {
        Map::empty()
    } else {
        spec_entries_map(s.drop_last()).insert(s.last().0@, s.last().1@)
    }
}

/// Map from canonical module URL to engine-assigned script identifier, with
/// the get/insert surface of a concurrent map.
#[derive(Debug)]
pub struct MaybeDashMap {
    entries: Vec<(String, String)>,
}

impl View for MaybeDashMap {
    type V = Map<Seq<char>, Seq<char>>;

    closed spec fn view(&self) -> Map<Seq<char>, Seq<char>> {
        spec_entries_map(self.entries@)
    }
}

impl Default for MaybeDashMap {
    /// An empty registry.
    fn default() -> (r: Self)
        ensures
            r.wf(),
            r@ == Map::<Seq<char>, Seq<char>>::empty(),
    {
        MaybeDashMap { entries: Vec::new() }
    }
}

impl MaybeDashMap {
    /// Well-formedness: at most one entry per key, the registry's invariant.
    pub closed spec fn wf(&self) -> bool {
        forall|i: int, j: int|
            0 <= i < j < self.entries@.len() ==> (#[trigger] self.entries@[i]).0@ != (
            #[trigger] self.entries@[j]).0@
    }

    /// Looks a key up, returning the latest value inserted for it.
    pub fn get(&self, key: &String) -> (r: Option<&String>)
        requires
            self.wf(),
        ensures
            match r {
                Option::Some(v) => self@.contains_key(key@) && self@[key@] == v@,
                Option::None => !self@.contains_key(key@),
            },
    {
        let n = self.entries.len();
        proof {
            assert(self.entries@.take(n as int) =~= self.entries@);
        }
        let mut i: usize = n;
        while i > 0
            invariant
                i <= n,
                n == self.entries@.len(),
                self.wf(),
                self@.contains_key(key@) == spec_entries_map(self.entries@.take(i as int))
                    .contains_key(key@),
                self@.contains_key(key@) ==> self@[key@] == spec_entries_map(
                    self.entries@.take(i as int),
                )[key@],
            decreases i,
        {
            i = i - 1;
            proof {
                assert(self.entries@.take(i + 1).drop_last() =~= self.entries@.take(i as int));
                assert(self.entries@.take(i + 1).last() == self.entries@[i as int]);
            }
            if self.entries[i].0 == *key {
                return Option::Some(&self.entries[i].1);
            }
        }
        proof {
            assert(self.entries@.take(0) =~= Seq::<(String, String)>::empty());
        }
        Option::None
    }

    /// Inserts a key/value pair, overwriting and returning the prior value
    /// for the key if one was present: a later insert for the same key wins.
    pub fn insert(&mut self, key: String, value: String) -> (prev: Option<String>)
        requires
            old(self).wf(),
        ensures
            final(self).wf(),
            final(self)@ == old(self)@.insert(key@, value@),
            match prev {
                Option::Some(v) => old(self)@.contains_key(key@) && old(self)@[key@] == v@,
                Option::None => !old(self)@.contains_key(key@),
            },
    {
        let n = self.entries.len();
        let mut i: usize = 0;
        while i < n
            invariant
                i <= n,
                n == self.entries@.len(),
                self.wf(),
                self == old(self),
                forall|j: int| 0 <= j < i ==> self.entries@[j].0@ != #[trigger] key@,
            decreases n - i,
        {
            if self.entries[i].0 == key {
                let prior = self.entries[i].1.clone();
                let ghost s0 = self.entries@;
                self.entries[i] = (key, value);
                proof {
                    lemma_entries_map_update(s0, i as int, (key, value));
                    lemma_entries_map_at(s0, i as int);
                }
                return Option::Some(prior);
            }
            i = i + 1;
        }
        let ghost s0 = self.entries@;
        self.entries.push((key, value));
        proof {
            assert(self.entries@.drop_last() =~= s0);
            lemma_entries_map_absent(s0, key@);
        }
        Option::None
    }
}

#[verifier::external_type_specification]
#[verifier::external_body]
#[verifier::reject_recursive_types(K)]
#[verifier::reject_recursive_types(V)]
#[verifier::reject_recursive_types(S)]
pub struct ExDashMap<K, V, S>(dashmap::DashMap<K, V, S>);

/// The mathematical map a concurrent registry map holds.
pub uninterp spec fn dash_contents(m: &dashmap::DashMap<String, String>) -> Map<
    Seq<char>,
    Seq<char>,
>;

/// The thread-safe registry storage strategy: the same get/insert surface as
/// [`MaybeDashMap`], backed by a lock-striped concurrent map so that the
/// registry can be shared across threads.
pub struct SharedDashMap {
    inner: dashmap::DashMap<String, String>,
}

/// The contents of a registry with nothing in it.
spec fn spec_no_contents() -> Map<Seq<char>, Seq<char>> {
    Map::empty()
}

/// Relies on dashmap::DashMap::new: creates a map with nothing in it.
#[verifier::external_body]
fn dash_new() -> (m: dashmap::DashMap<String, String>)
    ensures
        dash_contents(&m) == spec_no_contents(),
{
    dashmap::DashMap::new()
}

/// Relies on dashmap::DashMap::insert: maps the key to the value and returns
/// the value the key held before, if any.  Taken through an exclusive
/// reference so the change in contents can be stated.
#[verifier::external_body]
fn dash_insert(m: &mut dashmap::DashMap<String, String>, key: String, value: String) -> (prev:
    Option<String>)
    ensures
        dash_contents(final(m)) == dash_contents(old(m)).insert(key@, value@),
        match prev {
            Option::Some(v) => dash_contents(old(m)).contains_key(key@) && dash_contents(old(m))[
                key@] == v@,
            Option::None => !dash_contents(old(m)).contains_key(key@),
        },
{
    m.insert(key, value)
}

/// Relies on dashmap::DashMap::get: yields the value the key maps to, if
/// any; the value is cloned out of the map's read guard.
#[verifier::external_body]
fn dash_get(m: &dashmap::DashMap<String, String>, key: &String) -> (r: Option<String>)
    ensures
        match r {
            Option::Some(v) => dash_contents(m).contains_key(key@) && dash_contents(m)[key@]
                == v@,
            Option::None => !dash_contents(m).contains_key(key@),
        },
{
    m.get(key).map(|entry| entry.value().clone())
}

impl View for SharedDashMap {
    type V = Map<Seq<char>, Seq<char>>;

    closed spec fn view(&self) -> Map<Seq<char>, Seq<char>> {
        dash_contents(&self.inner)
    }
}

impl SharedDashMap {
    /// An empty registry.
    pub fn new() -> (r: Self)
        ensures
            r@ == Map::<Seq<char>, Seq<char>>::empty(),
    {
        SharedDashMap { inner: dash_new() }
    }

    /// Looks a key up, returning the latest value inserted for it.
    pub fn get(&self, key: &String) -> (r: Option<String>)
        ensures
            match r {
                Option::Some(v) => self@.contains_key(key@) && self@[key@] == v@,
                Option::None => !self@.contains_key(key@),
            },
    {
        dash_get(&self.inner, key)
    }

    /// Inserts a key/value pair, overwriting and returning the prior value
    /// for the key if one was present: a later insert for the same key wins.
    pub fn insert(&mut self, key: String, value: String) -> (prev: Option<String>)
        ensures
            final(self)@ == old(self)@.insert(key@, value@),
            match prev {
                Option::Some(v) => old(self)@.contains_key(key@) && old(self)@[key@] == v@,
                Option::None => !old(self)@.contains_key(key@),
            },
    {
        dash_insert(&mut self.inner, key, value)
    }
}

/// Law: the last write wins.  However a registry map arose, recording an
/// identifier for a URL makes a lookup of that URL yield exactly the
/// identifier recorded latest — in the terms [`MaybeDashMap::insert`] and
/// [`MaybeDashMap::get`] use for their contracts.
pub proof fn lemma_last_write_wins(
    m: Map<Seq<char>, Seq<char>>,
    url: Seq<char>,
    id: Seq<char>,
)
    ensures
        m.insert(url, id).contains_key(url),
        m.insert(url, id)[url] == id,
{
}

/// A key no entry carries is not in the entries' map.
proof fn lemma_entries_map_absent(s: Seq<(String, String)>, k: Seq<char>)
    requires
        forall|j: int| 0 <= j < s.len() ==> s[j].0@ != k,
    ensures
        !spec_entries_map(s).contains_key(k),
    decreases s.len(),
{
    if s.len() > 0 {
        lemma_entries_map_absent(s.drop_last(), k);
    }
}

/// With unique keys, the entries' map holds each entry's key at its value.
proof fn lemma_entries_map_at(s: Seq<(String, String)>, i: int)
    requires
        0 <= i < s.len(),
        forall|p: int, q: int| 0 <= p < q < s.len() ==> (#[trigger] s[p]).0@ != (#[trigger] s[q]).0@,
    ensures
        spec_entries_map(s).contains_key(s[i].0@),
        spec_entries_map(s)[s[i].0@] == s[i].1@,
    decreases s.len(),
{
    if i == s.len() - 1 {
    } else {
        lemma_entries_map_at(s.drop_last(), i);
        assert(s.last().0@ != s[i].0@);
    }
}

/// With unique keys, replacing the entry at a key's position changes the
/// entries' map exactly as inserting over that key does.
proof fn lemma_entries_map_update(s: Seq<(String, String)>, i: int, e: (String, String))
    requires
        0 <= i < s.len(),
        s[i].0@ == e.0@,
        forall|p: int, q: int| 0 <= p < q < s.len() ==> (#[trigger] s[p]).0@ != (#[trigger] s[q]).0@,
    ensures
        spec_entries_map(s.update(i, e)) == spec_entries_map(s).insert(e.0@, e.1@),
    decreases s.len(),
{
    let t = s.update(i, e);
    if i == s.len() - 1 {
        assert(t.drop_last() =~= s.drop_last());
        assert(spec_entries_map(t) =~= spec_entries_map(s).insert(e.0@, e.1@));
    } else {
        lemma_entries_map_update(s.drop_last(), i, e);
        assert(t.drop_last() =~= s.drop_last().update(i, e));
        assert(t.last() == s.last());
        assert(s.last().0@ != e.0@);
        assert(spec_entries_map(t) =~= spec_entries_map(s).insert(e.0@, e.1@));
    }
}

} // verus!
