//! The registry of tools seen so far, and the string-keyed map it is made
//! of.
//!
//! The registry is an explicitly owned value: the caller creates it once
//! and hands it to every evaluation. It only grows; registering a server
//! again replaces that server's tools as a whole.

use crate::json::JsonValue;
use crate::text::{
    chars_eq, entry_keys, first_index, inserted, keys_distinct, lemma_first_index, to_chars,
};
use vstd::prelude::*;

verus! {

/// A map from strings to values that keeps its entries in insertion
/// order. No key occurs twice: the entries can only be changed through
/// [`StringMap::insert`], which replaces the entry of a key that is there.
#[derive(Debug)]
pub struct StringMap<V> {
    entries: Vec<(String, V)>,
}

impl<V: DeepView> DeepView for StringMap<V> {
    type V = Seq<(Seq<char>, V::V)>;

    closed spec fn deep_view(&self) -> Seq<(Seq<char>, V::V)> {
        self.entries.deep_view()
    }
}

/// Tool names with their fingerprints.
pub type FingerprintMap = StringMap<String>;

impl<V> StringMap<V> {
    #[verifier::type_invariant]
    spec fn distinct(self) -> bool {
        forall|i: int, j: int|
            0 <= i < j < self.entries@.len() ==> (#[trigger] self.entries@[i]).0@
                != (#[trigger] self.entries@[j]).0@
    }
}

impl<V: Clone> Clone for StringMap<V> {
    /// A map with copies of the same entries under the same keys.
    fn clone(&self) -> (copy: Self) {
        proof {
            use_type_invariant(self);
        }
        let mut entries: Vec<(String, V)> = Vec::new();
        let mut i: usize = 0;
        while i < self.entries.len()
            invariant
                i <= self.entries@.len(),
                entries@.len() == i,
                forall|j: int| 0 <= j < i ==> (#[trigger] entries@[j]).0@ == self.entries@[j].0@,
            decreases self.entries.len() - i,
        {
            entries.push((self.entries[i].0.clone(), self.entries[i].1.clone()));
            i += 1;
        }
        StringMap { entries }
    }
}

impl<V: DeepView> StringMap<V> {
    /// A map without entries.
    pub fn new() -> (map: Self)
        ensures
            map.deep_view() == Seq::<(Seq<char>, V::V)>::empty(),
    {
        let entries: Vec<(String, V)> = Vec::new();
        assert(entries.deep_view() =~= Seq::empty());
        StringMap { entries }
    }

    /// The entries in insertion order. No two of them have the same key.
    pub fn entries(&self) -> (r: &Vec<(String, V)>)
        ensures
            r.deep_view() == self.deep_view(),
            keys_distinct(self.deep_view()),
    {
        proof {
            use_type_invariant(self);
            let view = self.entries.deep_view();
            assert forall|i: int, j: int| 0 <= i < j < view.len() implies (#[trigger] view[i]).0
                != (#[trigger] view[j]).0 by {
                assert(view[i].0 == self.entries@[i].0@);
                assert(view[j].0 == self.entries@[j].0@);
            }
        }
        &self.entries
    }

    /// The number of entries.
    pub fn len(&self) -> (n: usize)
        ensures
            n == self.deep_view().len(),
    {
        self.entries.len()
    }

    /// The index of the entry with the given key.
    pub fn position(&self, key: &str) -> (r: Option<usize>)
        ensures
            match r {
                Some(i) => i < self.deep_view().len() && first_index(
                    entry_keys(self.deep_view()),
                    key@,
                    0,
                ) == Some(i as int),
                None => first_index(entry_keys(self.deep_view()), key@, 0) is None,
            },
    {
        let wanted = to_chars(key);
        let ghost keys = entry_keys(self.deep_view());
        let mut i: usize = 0;
        while i < self.entries.len()
            invariant
                i <= self.entries@.len(),
                wanted@ == key@,
                keys == entry_keys(self.entries.deep_view()),
                first_index(keys, key@, 0) == first_index(keys, key@, i as int),
            decreases self.entries.len() - i,
        {
            let candidate = to_chars(self.entries[i].0.as_str());
            assert(keys[i as int] == self.entries@[i as int].0@);
            if chars_eq(&candidate, &wanted) {
                return Some(i);
            }
            i += 1;
        }
        None
    }

    /// Whether some entry has the given key.
    pub fn contains_key(&self, key: &str) -> (r: bool)
        ensures
            r == (first_index(entry_keys(self.deep_view()), key@, 0) is Some),
    {
        self.position(key).is_some()
    }

    /// The value stored under the given key.
    pub fn get(&self, key: &str) -> (r: Option<&V>)
        ensures
            match r {
                Some(value) => first_index(entry_keys(self.deep_view()), key@, 0) matches Some(i)
                    && value.deep_view() == self.deep_view()[i].1,
                None => first_index(entry_keys(self.deep_view()), key@, 0) is None,
            },
    {
        match self.position(key) {
            Some(i) => {
                assert(self.entries.deep_view()[i as int].1
                    == self.entries@[i as int].1.deep_view());
                Some(&self.entries[i].1)
            },
            None => None,
        }
    }

    /// Stores `value` under `key`: replaces the entry with that key, or
    /// adds a new entry at the end.
    pub fn insert(&mut self, key: String, value: V)
        ensures
            final(self).deep_view() == inserted(old(self).deep_view(), key@, value.deep_view()),
    {
        proof {
            lemma_first_index(entry_keys(self.deep_view()), key@, 0);
        }
        let ghost view = self.deep_view();
        let at = self.position(key.as_str());
        let mut taken = StringMap::new();
        core::mem::swap(self, &mut taken);
        proof {
            use_type_invariant(&taken);
        }
        let StringMap { entries } = taken;
        let mut entries = entries;
        let ghost before = entries@;
        assert(forall|j: int| 0 <= j < before.len() ==> entry_keys(view)[j] == before[j].0@);
        match at {
            Some(i) => {
                entries.set(i, (key, value));
                assert(entries.deep_view() =~= view.update(i as int, (key@, value.deep_view())));
                assert forall|a: int, b: int| 0 <= a < b < entries@.len() implies (
                #[trigger] entries@[a]).0@ != (#[trigger] entries@[b]).0@ by {
                    assert(entries@[a].0@ == before[a].0@);
                    assert(entries@[b].0@ == before[b].0@);
                }
            },
            None => {
                entries.push((key, value));
                assert(entries.deep_view() =~= view.push((key@, value.deep_view())));
                assert forall|a: int, b: int| 0 <= a < b < entries@.len() implies (
                #[trigger] entries@[a]).0@ != (#[trigger] entries@[b]).0@ by {
                    if b < before.len() {
                        assert(entries@[a] == before[a] && entries@[b] == before[b]);
                    } else {
                        assert(entries@[a] == before[a]);
                        assert(entry_keys(view)[a] == before[a].0@);
                    }
                }
            },
        }
        *self = StringMap { entries };
    }
}

/// The tools of every server seen so far: server name to tool name to
/// fingerprint. Server names are kept as they were last registered; no
/// name is listed twice.
#[derive(Debug, Clone)]
pub struct ToolRegistry {
    pub servers: StringMap<FingerprintMap>,
}

/// The mathematical content of a registry: servers in the order of their
/// first registration, each with its tools and their fingerprints.
pub type RegistryView = Seq<(Seq<char>, Seq<(Seq<char>, Seq<char>)>)>;

impl View for ToolRegistry {
    type V = RegistryView;

    open spec fn view(&self) -> RegistryView {
        self.servers.deep_view()
    }
}

impl ToolRegistry {
    /// An empty registry.
    pub fn new() -> (registry: Self)
        ensures
            registry@ == RegistryView::empty(),
    {
        ToolRegistry { servers: StringMap::new() }
    }
}

/// Looks up the tools registered for a server (by its exact name).
pub fn get_tool_registry<'a>(registry: &'a ToolRegistry, server_name: &str) -> (r: Option<
    &'a FingerprintMap,
>)
    ensures
        match r {
            Some(tools) => first_index(entry_keys(registry@), server_name@, 0) matches Some(i)
                && tools.deep_view() == registry@[i].1,
            None => first_index(entry_keys(registry@), server_name@, 0) is None,
        },
{
    registry.servers.get(server_name)
}

/// Replaces the tools registered for a server as a whole, or adds the
/// server if it was not known. No other server's entry changes.
pub fn update_tool_registry(
    registry: &mut ToolRegistry,
    server_name: String,
    tool_fingerprints: FingerprintMap,
)
    ensures
        final(registry)@ == inserted(old(registry)@, server_name@, tool_fingerprints.deep_view()),
{
    registry.servers.insert(server_name, tool_fingerprints);
}

/// A configuration document kept between evaluations. The caller decides
/// when it is stale: nothing here refreshes it.
#[derive(Debug)]
pub struct ConfigCache {
    pub value: Option<JsonValue>,
}

impl ConfigCache {
    /// An empty cache.
    pub fn new() -> (cache: Self)
        ensures
            cache.value is None,
    {
        ConfigCache { value: None }
    }

    /// Forgets the cached document.
    pub fn invalidate(&mut self)
        ensures
            final(self).value is None,
    {
        self.value = None;
    }
}

/// The cached configuration document, if there is one.
pub fn get_cached_config(cache: &ConfigCache) -> (r: Option<&JsonValue>)
    ensures
        match r {
            Some(value) => cache.value == Some(*value),
            None => cache.value is None,
        },
{
    match &cache.value {
        Some(value) => Some(value),
        None => None,
    }
}

/// Replaces the cached configuration document.
pub fn set_cached_config(cache: &mut ConfigCache, config: JsonValue)
    ensures
        final(cache).value == Some(config),
{
    cache.value = Some(config);
}

} // verus!
