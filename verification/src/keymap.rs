//! A finite association map keyed by strings, compared by character content.
//!
//! Both the mark registry and the vim-style named-mark table are small (a
//! handful of entries each), so the representation is a vector of key/value
//! pairs with pairwise-distinct keys. The abstract contents are a `Map` from
//! key characters (`Seq<char>`) to values.

use vstd::prelude::*;

verus! {

/// The map described by a sequence of key/value pairs; later pairs win.
pub open spec fn pairs_map<V>(s: Seq<(String, V)>) -> Map<Seq<char>, V>
    decreases s.len(),
{
    if s.len() == 0 {
        Map::empty()
    } else {
        pairs_map(s.drop_last()).insert(s.last().0@, s.last().1)
    }
}

/// No two pairs carry the same key content.
pub open spec fn distinct_keys<V>(s: Seq<(String, V)>) -> bool {
    forall|i: int, j: int| 0 <= i < j < s.len() ==> s[i].0@ != s[j].0@
}

/// A key occurs in the map exactly when some pair carries it.
proof fn lemma_pairs_map_dom<V>(s: Seq<(String, V)>, k: Seq<char>)
    ensures
        pairs_map(s).contains_key(k) <==> exists|i: int| 0 <= i < s.len() && s[i].0@ == k,
    decreases s.len(),
{
    if s.len() > 0 {
        lemma_pairs_map_dom(s.drop_last(), k);
        if s.last().0@ == k {
            assert(s[s.len() - 1].0@ == k);
        } else {
            if exists|i: int| 0 <= i < s.len() && s[i].0@ == k {
                let i = choose|i: int| 0 <= i < s.len() && s[i].0@ == k;
                assert(i < s.len() - 1);
                assert(s.drop_last()[i].0@ == k);
            }
            if exists|i: int| 0 <= i < s.drop_last().len() && s.drop_last()[i].0@ == k {
                let i = choose|i: int| 0 <= i < s.drop_last().len() && s.drop_last()[i].0@ == k;
                assert(s[i].0@ == k);
            }
        }
    }
}

/// Under distinct keys, the pair at index `i` gives the map's value at its key.
proof fn lemma_pairs_map_index<V>(s: Seq<(String, V)>, i: int)
    requires
        distinct_keys(s),
        0 <= i < s.len(),
    ensures
        pairs_map(s).contains_key(s[i].0@),
        pairs_map(s)[s[i].0@] == s[i].1,
    decreases s.len(),
{
    if i < s.len() - 1 {
        assert(distinct_keys(s.drop_last()));
        lemma_pairs_map_index(s.drop_last(), i);
        assert(s.drop_last()[i] == s[i]);
        assert(s.last().0@ != s[i].0@);
    }
}

/// Replacing the pair at index `i` by one with the same key updates the map.
proof fn lemma_pairs_map_update<V>(s: Seq<(String, V)>, i: int, p: (String, V))
    requires
        distinct_keys(s),
        0 <= i < s.len(),
        p.0@ == s[i].0@,
    ensures
        pairs_map(s.update(i, p)) =~= pairs_map(s).insert(p.0@, p.1),
    decreases s.len(),
{
    let t = s.update(i, p);
    if i == s.len() - 1 {
        assert(t.drop_last() =~= s.drop_last());
        assert(t.last() == p);
    } else {
        assert(t.drop_last() =~= s.drop_last().update(i, p));
        assert(t.last() == s.last());
        assert(distinct_keys(s.drop_last()));
        lemma_pairs_map_update(s.drop_last(), i, p);
        // The two inserted keys differ, so the inserts commute.
        assert(s.last().0@ != p.0@);
    }
}

/// Appending a pair with a fresh key inserts its binding.
proof fn lemma_pairs_map_push<V>(s: Seq<(String, V)>, p: (String, V))
    ensures
        pairs_map(s.push(p)) =~= pairs_map(s).insert(p.0@, p.1),
{
    assert(s.push(p).drop_last() =~= s);
    assert(s.push(p).last() == p);
}

/// Removing the pair at index `i` removes its key from the map.
proof fn lemma_pairs_map_remove<V>(s: Seq<(String, V)>, i: int)
    requires
        distinct_keys(s),
        0 <= i < s.len(),
    ensures
        pairs_map(s.remove(i)) =~= pairs_map(s).remove(s[i].0@),
    decreases s.len(),
{
    let t = s.remove(i);
    if i == s.len() - 1 {
        assert(t =~= s.drop_last());
        lemma_pairs_map_dom(s.drop_last(), s[i].0@);
        assert(!pairs_map(s.drop_last()).contains_key(s[i].0@));
    } else {
        assert(t.drop_last() =~= s.drop_last().remove(i));
        assert(t.last() == s.last());
        assert(distinct_keys(s.drop_last()));
        lemma_pairs_map_remove(s.drop_last(), i);
        assert(s.drop_last()[i] == s[i]);
        assert(s.last().0@ != s[i].0@);
    }
}

/// The index of the pair carrying `key`, if any.
fn find_key_index<V>(entries: &Vec<(String, V)>, key: &String) -> (r: Option<usize>)
    ensures
        match r {
            Some(i) => i < entries@.len() && entries@[i as int].0@ == key@,
            None => forall|j: int| 0 <= j < entries@.len() ==> entries@[j].0@ != key@,
        },
{
    let n = entries.len();
    let mut i: usize = 0;
    while i < n
        invariant
            n == entries@.len(),
            i <= n,
            forall|j: int| 0 <= j < i ==> entries@[j].0@ != key@,
        decreases n - i,
    {
        if entries[i].0 == *key {
            return Some(i);
        }
        i = i + 1;
    }
    None
}

/// Finite association map from string keys to values of type `V`.
///
/// Keys are compared by content: two distinct `String` values with the same
/// characters denote the same key. Inserting an existing key overwrites.
pub struct KeyMap<V> {
    entries: Vec<(String, V)>,
}

impl<V> KeyMap<V> {
    /// Representation invariant: no key occurs twice.
    #[verifier::type_invariant]
    spec fn wf(&self) -> bool {
        distinct_keys(self.entries@)
    }

    /// The abstract contents: a map from key characters to values.
    pub closed spec fn view(&self) -> Map<Seq<char>, V> {
        pairs_map(self.entries@)
    }

    /// The empty map.
    pub fn new() -> (r: Self)
        ensures
            r@ == Map::<Seq<char>, V>::empty(),
    {
        KeyMap { entries: Vec::new() }
    }

    /// Unconditional upsert: binds `key` to `value`, replacing any previous
    /// binding with the same key content.
    pub fn set(&mut self, key: String, value: V)
        ensures
            final(self)@ == old(self)@.insert(key@, value),
    {
        proof {
            use_type_invariant(&*self);
        }
        let mut entries: Vec<(String, V)> = Vec::new();
        core::mem::swap(&mut entries, &mut self.entries);
        let ghost s = entries@;
        match find_key_index(&entries, &key) {
            Some(i) => {
                proof {
                    lemma_pairs_map_update(s, i as int, (key, value));
                }
                entries[i] = (key, value);
            },
            None => {
                proof {
                    lemma_pairs_map_push(s, (key, value));
                }
                entries.push((key, value));
            },
        }
        proof {
            assert(distinct_keys(entries@));
        }
        self.entries = entries;
    }

    /// Read-only lookup by key content.
    pub fn get(&self, key: &String) -> (r: Option<&V>)
        ensures
            match r {
                Some(v) => self@.contains_key(key@) && *v == self@[key@],
                None => !self@.contains_key(key@),
            },
    {
        proof {
            use_type_invariant(&*self);
        }
        match find_key_index(&self.entries, key) {
            Some(i) => {
                proof {
                    lemma_pairs_map_index(self.entries@, i as int);
                }
                Some(&self.entries[i].1)
            },
            None => {
                proof {
                    lemma_pairs_map_dom(self.entries@, key@);
                }
                None
            },
        }
    }

    /// Removes the binding for `key` if one exists; absent keys are a no-op.
    pub fn remove(&mut self, key: &String)
        ensures
            final(self)@ == old(self)@.remove(key@),
    {
        proof {
            use_type_invariant(&*self);
        }
        let mut entries: Vec<(String, V)> = Vec::new();
        core::mem::swap(&mut entries, &mut self.entries);
        let ghost s = entries@;
        match find_key_index(&entries, key) {
            Some(i) => {
                proof {
                    lemma_pairs_map_remove(s, i as int);
                }
                entries.remove(i);
                proof {
                    assert(distinct_keys(entries@));
                }
            },
            None => {
                proof {
                    lemma_pairs_map_dom(s, key@);
                    assert(pairs_map(s).remove(key@) =~= pairs_map(s));
                }
            },
        }
        self.entries = entries;
    }

    /// The key/value pairs, each key distinct and bound as in the map.
    pub fn pairs(&self) -> (r: &Vec<(String, V)>)
        ensures
            distinct_keys(r@),
            pairs_map(r@) == self@,
            forall|i: int|
                0 <= i < r@.len() ==> self@.contains_key(#[trigger] r@[i].0@) && self@[r@[i].0@]
                    == r@[i].1,
            forall|k: Seq<char>|
                self@.contains_key(k) ==> exists|i: int| 0 <= i < r@.len() && #[trigger] r@[i].0@
                    == k,
    {
        proof {
            use_type_invariant(&*self);
            assert forall|i: int| 0 <= i < self.entries@.len() implies self@.contains_key(
                #[trigger] self.entries@[i].0@,
            ) && self@[self.entries@[i].0@] == self.entries@[i].1 by {
                lemma_pairs_map_index(self.entries@, i);
            }
            assert forall|k: Seq<char>| self@.contains_key(k) implies exists|i: int|
                0 <= i < self.entries@.len() && #[trigger] self.entries@[i].0@ == k by {
                lemma_pairs_map_dom(self.entries@, k);
            }
        }
        &self.entries
    }
}

} // verus!
