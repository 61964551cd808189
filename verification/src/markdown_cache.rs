//! A keyed cache of markdown states, as virtual lists keep them: the state
//! that measures an item is the very state that later renders it.
//!
//! The cache holds values of any type `V`; the rendering layer stores its
//! markdown state handles in it, whose clones refer to the same state.
//!
//! The entries are kept in a `Vec` whose keys are distinct, which gives the
//! same map from keys to states as a hash map keyed by strings would.
use vstd::prelude::*;

verus! {

/// Whether no two entries share a key.
pub open spec fn keys_distinct<V>(entries: Seq<(String, V)>) -> bool {
    forall|i: int, j: int|
        0 <= i < entries.len() && 0 <= j < entries.len() && i != j ==> #[trigger] entries[i].0@
            != #[trigger] entries[j].0@
}

/// Whether some entry has key `key`.
pub open spec fn has_key<V>(entries: Seq<(String, V)>, key: Seq<char>) -> bool {
    exists|i: int| 0 <= i < entries.len() && #[trigger] entries[i].0@ == key
}

/// The value of the entry with key `key`.
pub open spec fn value_at<V>(entries: Seq<(String, V)>, key: Seq<char>) -> V {
    entries[choose|i: int| 0 <= i < entries.len() && #[trigger] entries[i].0@ == key].1
}

/// The map from keys to values that a sequence of entries stands for.
pub open spec fn entries_map<V>(entries: Seq<(String, V)>) -> Map<Seq<char>, V> {
    Map::new(|key: Seq<char>| has_key(entries, key), |key: Seq<char>| value_at(entries, key))
}

/// The cache `cache` once `key` has a state: unchanged if it had one, else
/// with `state` cached under `key`.
pub open spec fn with_state<V>(cache: Map<Seq<char>, V>, key: Seq<char>, state: V) -> Map<
    Seq<char>,
    V,
> {
    if cache.contains_key(key) {
        cache
    } else {
        cache.insert(key, state)
    }
}

/// With distinct keys, the entry at `i` gives the value of its key.
proof fn lemma_value_at_index<V>(entries: Seq<(String, V)>, i: int)
    requires
        keys_distinct(entries),
        0 <= i < entries.len(),
    ensures
        has_key(entries, entries[i].0@),
        value_at(entries, entries[i].0@) == entries[i].1,
{
    let k = entries[i].0@;
    assert(entries[i].0@ == k);
    let j = choose|j: int| 0 <= j < entries.len() && #[trigger] entries[j].0@ == k;
    assert(entries[j].0@ == k);
    assert(i == j);
}

/// Cache of markdown states keyed by strings.
pub struct MarkdownStateCache<V> {
    entries: Vec<(String, V)>,
}

impl<V> View for MarkdownStateCache<V> {
    type V = Map<Seq<char>, V>;

    closed spec fn view(&self) -> Map<Seq<char>, V> {
        entries_map(self.entries@)
    }
}

impl<V> MarkdownStateCache<V> {
    #[verifier::type_invariant]
    closed spec fn inv(&self) -> bool {
        keys_distinct(self.entries@)
    }

    /// Create an empty cache.
    pub fn new() -> (r: Self)
        ensures
            r@ == Map::<Seq<char>, V>::empty(),
    {
        let r = MarkdownStateCache { entries: Vec::new() };
        assert(r@ =~= Map::<Seq<char>, V>::empty());
        r
    }

    /// The index of the entry with key `key`, if any.
    fn find(&self, key: &String) -> (r: Option<usize>)
        ensures
            match r {
                Some(i) => i < self.entries@.len() && self.entries@[i as int].0@ == key@,
                None => !has_key(self.entries@, key@),
            },
    {
        let n = self.entries.len();
        let mut i: usize = 0;
        while i < n
            invariant
                0 <= i <= n,
                n == self.entries@.len(),
                forall|j: int| 0 <= j < i ==> #[trigger] self.entries@[j].0@ != key@,
            decreases n - i,
        {
            if self.entries[i].0 == *key {
                return Some(i);
            }
            i = i + 1;
        }
        None
    }

    /// The number of cached states.
    pub fn len(&self) -> (r: usize)
        ensures
            r == self@.len(),
    {
        proof {
            use_type_invariant(self);
            self.lemma_len();
        }
        self.entries.len()
    }

    proof fn lemma_len(&self)
        requires
            keys_distinct(self.entries@),
        ensures
            self@.dom().finite(),
            self@.len() == self.entries@.len(),
    {
        let keys = self.entries@.map_values(|e: (String, V)| e.0@);
        assert(self@.dom() =~= keys.to_set()) by {
            assert forall|k: Seq<char>| self@.dom().contains(k) implies keys.to_set().contains(k) by {
                let i = choose|i: int| 0 <= i < self.entries@.len() && #[trigger] self.entries@[i].0@ == k;
                assert(keys[i] == k);
            }
            assert forall|k: Seq<char>| keys.to_set().contains(k) implies self@.dom().contains(k) by {
                let i = choose|i: int| 0 <= i < keys.len() && keys[i] == k;
                assert(self.entries@[i].0@ == k);
            }
        }
        assert(keys.no_duplicates()) by {
            assert forall|i: int, j: int| 0 <= i < keys.len() && 0 <= j < keys.len() && i != j implies keys[i] != keys[j] by {
                assert(self.entries@[i].0@ != self.entries@[j].0@);
            }
        }
        keys.unique_seq_to_set();
    }

    /// The state cached under `key`, if any.
    pub fn get(&self, key: &str) -> (r: Option<&V>)
        ensures
            match r {
                Some(v) => self@.contains_key(key@) && *v == self@[key@],
                None => !self@.contains_key(key@),
            },
    {
        proof {
            use_type_invariant(self);
        }
        let k = key.to_owned();
        match self.find(&k) {
            Some(i) => {
                proof {
                    lemma_value_at_index(self.entries@, i as int);
                }
                Some(&self.entries[i].1)
            },
            None => None,
        }
    }

    /// Get the state cached under `key`, or create one with `create`, cache
    /// it under `key` and return it.
    ///
    /// A cached state is handed back as a clone, and `create` is not called;
    /// otherwise the cache keeps a clone of the state that `create` made.
    pub fn get_or_create_markdown_state<F: FnOnce() -> V>(&mut self, key: &str, create: F) -> (r: V)
        where V: Clone,
        requires
            create.requires(()),
        ensures
            final(self)@.contains_key(key@),
            final(self)@ == with_state(old(self)@, key@, final(self)@[key@]),
            old(self)@.contains_key(key@) ==> cloned(old(self)@[key@], r),
            !old(self)@.contains_key(key@) ==> create.ensures((), r) && cloned(r, final(self)@[key@]),
    {
        proof {
            use_type_invariant(&*self);
        }
        let k = key.to_owned();
        match self.find(&k) {
            Some(i) => {
                proof {
                    lemma_value_at_index(self.entries@, i as int);
                }
                self.entries[i].1.clone()
            },
            None => {
                let state = create();
                let stored = state.clone();
                let ghost old_entries = self.entries@;
                let mut entries: Vec<(String, V)> = Vec::new();
                std::mem::swap(&mut entries, &mut self.entries);
                entries.push((k, stored));
                proof {
                    let n = old_entries.len() as int;
                    assert(entries@[n].0@ == key@);
                    assert forall|i: int, j: int|
                        0 <= i < entries@.len() && 0 <= j < entries@.len() && i != j implies #[trigger] entries@[i].0@
                            != #[trigger] entries@[j].0@ by {
                        if i < n && j < n {
                            assert(old_entries[i] == entries@[i]);
                            assert(old_entries[j] == entries@[j]);
                        } else if i < n {
                            assert(old_entries[i] == entries@[i]);
                        } else {
                            assert(old_entries[j] == entries@[j]);
                        }
                    }
                    lemma_value_at_index(entries@, n);
                    assert forall|q: Seq<char>|
                        has_key(entries@, q) == (has_key(old_entries, q) || q == key@) by {
                        if has_key(entries@, q) && q != key@ {
                            let i = choose|i: int| 0 <= i < entries@.len() && #[trigger] entries@[i].0@ == q;
                            assert(old_entries[i] == entries@[i]);
                        }
                        if has_key(old_entries, q) {
                            let i = choose|i: int| 0 <= i < old_entries.len() && #[trigger] old_entries[i].0@ == q;
                            assert(entries@[i] == old_entries[i]);
                        }
                    }
                    assert forall|q: Seq<char>| has_key(old_entries, q) && q != key@ implies value_at(entries@, q)
                        == value_at(old_entries, q) by {
                        let i = choose|i: int| 0 <= i < old_entries.len() && #[trigger] old_entries[i].0@ == q;
                        assert(entries@[i] == old_entries[i]);
                        lemma_value_at_index(entries@, i);
                        lemma_value_at_index(old_entries, i);
                    }
                    assert(entries_map(entries@) =~= entries_map(old_entries).insert(key@, entries@[n].1));
                }
                self.entries = entries;
                state
            },
        }
    }

    /// Apply `update` to the state cached under `key`, if there is one.
    ///
    /// The cache itself is left as it is. Returns whether a state was found.
    pub fn update_markdown_state<F: FnOnce(&V)>(&mut self, key: &str, update: F) -> (found: bool)
        requires
            forall|v: V| update.requires((&v,)),
        ensures
            final(self)@ == old(self)@,
            found == old(self)@.contains_key(key@),
            found ==> update.ensures((&old(self)@[key@],), ()),
    {
        proof {
            use_type_invariant(&*self);
        }
        let k = key.to_owned();
        match self.find(&k) {
            Some(i) => {
                proof {
                    lemma_value_at_index(self.entries@, i as int);
                }
                update(&self.entries[i].1);
                true
            },
            None => false,
        }
    }

    /// Remove the state cached under `key`, if any.
    pub fn remove_markdown_state(&mut self, key: &str)
        ensures
            final(self)@ == old(self)@.remove(key@),
    {
        proof {
            use_type_invariant(&*self);
        }
        let k = key.to_owned();
        match self.find(&k) {
            Some(ix) => {
                let ghost old_entries = self.entries@;
                let mut entries: Vec<(String, V)> = Vec::new();
                std::mem::swap(&mut entries, &mut self.entries);
                let _removed = entries.remove(ix);
                proof {
                    let r = ix as int;
                    assert forall|i: int| 0 <= i < entries@.len() implies #[trigger] entries@[i] == old_entries[
                        if i < r { i } else { i + 1 }] by {}
                    assert forall|i: int, j: int|
                        0 <= i < entries@.len() && 0 <= j < entries@.len() && i != j implies #[trigger] entries@[i].0@
                            != #[trigger] entries@[j].0@ by {
                        let oi = if i < r { i } else { i + 1 };
                        let oj = if j < r { j } else { j + 1 };
                        assert(entries@[i] == old_entries[oi]);
                        assert(entries@[j] == old_entries[oj]);
                    }
                    assert forall|q: Seq<char>|
                        has_key(entries@, q) == (has_key(old_entries, q) && q != key@) by {
                        if has_key(entries@, q) {
                            let i = choose|i: int| 0 <= i < entries@.len() && #[trigger] entries@[i].0@ == q;
                            let oi = if i < r { i } else { i + 1 };
                            assert(entries@[i] == old_entries[oi]);
                            assert(old_entries[r].0@ == key@);
                        }
                        if has_key(old_entries, q) && q != key@ {
                            let oi = choose|i: int| 0 <= i < old_entries.len() && #[trigger] old_entries[i].0@ == q;
                            let i = if oi < r { oi } else { oi - 1 };
                            assert(entries@[i] == old_entries[oi]);
                        }
                    }
                    assert forall|q: Seq<char>| has_key(entries@, q) implies value_at(entries@, q)
                        == value_at(old_entries, q) by {
                        let i = choose|i: int| 0 <= i < entries@.len() && #[trigger] entries@[i].0@ == q;
                        let oi = if i < r { i } else { i + 1 };
                        assert(entries@[i] == old_entries[oi]);
                        lemma_value_at_index(entries@, i);
                        lemma_value_at_index(old_entries, oi);
                    }
                    assert(entries_map(entries@) =~= entries_map(old_entries).remove(key@));
                }
                self.entries = entries;
            },
            None => {
                proof {
                    assert(self@ =~= old(self)@.remove(key@));
                }
            },
        }
    }

    /// Clear all cached states.
    pub fn clear_markdown_states(&mut self)
        ensures
            final(self)@ == Map::<Seq<char>, V>::empty(),
    {
        self.entries = Vec::new();
        proof {
            assert(self@ =~= Map::<Seq<char>, V>::empty());
        }
    }
}

} // verus!

verus! {

/// Once a key has a state, asking for it again finds that very state and
/// changes nothing: whatever a second creation would have made is not cached.
/// The state cached is the one there before, or else the one made first.
pub proof fn law_state_is_reused<V>(cache: Map<Seq<char>, V>, key: Seq<char>, first: V, second: V)
    ensures
        with_state(cache, key, first).contains_key(key),
        with_state(with_state(cache, key, first), key, second) == with_state(cache, key, first),
        with_state(cache, key, first)[key] == (if cache.contains_key(key) {
            cache[key]
        } else {
            first
        }),
{
}

/// A removed key has no state until one is cached again, and the states of
/// other keys stay; a cleared cache has no state at all.
pub proof fn law_remove_and_clear<V>(cache: Map<Seq<char>, V>, key: Seq<char>, other: Seq<char>)
    requires
        other != key,
    ensures
        !cache.remove(key).contains_key(key),
        cache.remove(key).contains_key(other) == cache.contains_key(other),
        cache.contains_key(other) ==> cache.remove(key)[other] == cache[other],
        !Map::<Seq<char>, V>::empty().contains_key(key),
{
}

} // verus!
