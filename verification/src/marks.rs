//! The mark data model and the process-wide mark registry.
//!
//! A mark is a durable reference to a location in a document. Its key is an
//! arbitrary string; keys that parse as non-negative integers denote dynamic
//! (quick-switcher) marks, all other keys denote static named marks. The
//! registry is a plain keyed store: it owns no user-interface state and the
//! nine-slot bound of the quick switcher is enforced by the chord machine at
//! creation time, not here.

use crate::digits::{digits_val, is_digit_string, slot_key};
use crate::keymap::KeyMap;
use vstd::prelude::*;

verus! {

/// How a mark was created: through the quick switcher (`DynamicMark`) or
/// through a direct named-mark command (`StaticMark`). Only dynamic marks
/// populate the quick switcher's slot list.
#[derive(Clone, Copy, PartialEq, Eq, Structural, Debug)]
pub enum MarkType {
    DynamicMark,
    StaticMark,
}

/// Worktree-relative identity of a file: the worktree it belongs to and the
/// path inside that worktree.
pub struct ProjectPath {
    pub worktree_id: u64,
    pub path: String,
}

impl Clone for ProjectPath {
    fn clone(&self) -> (r: Self)
        ensures
            r == *self,
    {
        ProjectPath { worktree_id: self.worktree_id, path: self.path.clone() }
    }
}

/// Two project paths denote the same file exactly when both the worktree and
/// the path characters agree.
pub open spec fn path_matches(a: ProjectPath, b: ProjectPath) -> bool {
    a.worktree_id == b.worktree_id && a.path@ == b.path@
}

/// Content comparison of project paths.
pub fn project_path_eq(a: &ProjectPath, b: &ProjectPath) -> (r: bool)
    ensures
        r == path_matches(*a, *b),
{
    a.worktree_id == b.worktree_id && a.path == b.path
}

/// A non-owning handle to a document view. The view it names may have been
/// closed since the handle was taken; whether it is still live is decided
/// against the current workspace state, never assumed.
#[derive(Clone, Copy, PartialEq, Eq, Structural, Debug)]
pub struct WeakItemHandle {
    pub item_id: u64,
}

/// What a mark remembers about the view it was created from: the weak view
/// handle, an opaque intra-document navigation payload replayed by the view
/// when navigation completes, whether the view was a preview tab, and a
/// creation timestamp.
#[derive(Clone, Copy, PartialEq, Eq, Structural, Debug)]
pub struct NavigationEntry {
    pub item: WeakItemHandle,
    pub data: Option<u64>,
    pub timestamp: u64,
    pub is_preview: bool,
}

/// A named, durable reference to a location in a document.
pub struct Mark {
    pub project_path: ProjectPath,
    pub absolute_path: Option<String>,
    pub mark_type: MarkType,
    pub entry: NavigationEntry,
}

impl Clone for Mark {
    fn clone(&self) -> (r: Self)
        ensures
            r == *self,
    {
        Mark {
            project_path: self.project_path.clone(),
            absolute_path: match &self.absolute_path {
                Some(p) => Some(p.clone()),
                None => None,
            },
            mark_type: self.mark_type,
            entry: self.entry,
        }
    }
}

/// `k`/`n` name a dynamic mark of `m` whose key parses to slot `n`.
pub open spec fn dynamic_digit_entry(m: Map<Seq<char>, Mark>, k: Seq<char>, n: int) -> bool {
    m.contains_key(k) && is_digit_string(k) && digits_val(k) == n && m[k].mark_type
        == MarkType::DynamicMark
}

/// Slot `n` holds a dynamic mark under its canonical key.
pub open spec fn slot_taken(m: Map<Seq<char>, Mark>, n: int) -> bool {
    m.contains_key(slot_key(n)) && m[slot_key(n)].mark_type == MarkType::DynamicMark
}

/// The slot numbers the registry's dynamic marks occupy: every integer some
/// dynamic mark's key parses to. This is the set `get_dynamic_marks` lists,
/// and its size is the registry's dynamic-mark count.
pub open spec fn dynamic_slots(m: Map<Seq<char>, Mark>) -> Set<int> {
    Set::new(
        |n: int|
            0 <= n <= usize::MAX && exists|k: Seq<char>| #[trigger] dynamic_digit_entry(m, k, n),
    )
}

/// The process-wide mark registry: a keyed store of marks. Keys are unique;
/// inserting an existing key overwrites. The registry stays valid after every
/// view referenced by its marks has been destroyed, since views are held only
/// weakly.
pub struct GlobalMarks {
    marks: KeyMap<Mark>,
}

impl GlobalMarks {
    /// The abstract contents: a map from key characters to marks.
    pub closed spec fn view(&self) -> Map<Seq<char>, Mark> {
        self.marks@
    }

    /// An empty registry.
    pub fn new() -> (r: Self)
        ensures
            r@ == Map::<Seq<char>, Mark>::empty(),
    {
        GlobalMarks { marks: KeyMap::new() }
    }

    /// Unconditional upsert; no error conditions.
    pub fn set(&mut self, key: String, mark: Mark)
        ensures
            final(self)@ == old(self)@.insert(key@, mark),
    {
        self.marks.set(key, mark);
    }

    /// Read-only lookup.
    pub fn get(&self, key: &String) -> (r: Option<&Mark>)
        ensures
            match r {
                Some(m) => self@.contains_key(key@) && *m == self@[key@],
                None => !self@.contains_key(key@),
            },
    {
        self.marks.get(key)
    }

    /// Removes the mark stored under `key`, if any.
    pub fn remove(&mut self, key: &String)
        ensures
            final(self)@ == old(self)@.remove(key@),
    {
        self.marks.remove(key);
    }

    /// The dynamic marks, keyed by the integer their key parses to.
    ///
    /// The result holds one row per slot number: every registry entry whose
    /// key is a digit string (with a value that fits in `usize`) and whose
    /// mark is dynamic contributes its slot, and each row's mark is such an
    /// entry's mark. Absent slots are simply missing rows, not tombstones.
    /// The number of rows is thus the registry's dynamic-mark count: the
    /// size of its occupied slot set.
    pub fn get_dynamic_marks(&self) -> (r: Vec<(usize, Mark)>)
        ensures
            forall|j: int|
                0 <= j < r@.len() ==> exists|k: Seq<char>|
                    dynamic_digit_entry(self@, k, #[trigger] r@[j].0 as int) && r@[j].1 == self@[k],
            forall|k: Seq<char>|
                #![trigger self@.contains_key(k)]
                self@.contains_key(k) && is_digit_string(k) && digits_val(k) <= usize::MAX as int
                    && self@[k].mark_type == MarkType::DynamicMark ==> exists|j: int|
                    0 <= j < r@.len() && #[trigger] r@[j].0 as int == digits_val(k),
            forall|j1: int, j2: int| 0 <= j1 < j2 < r@.len() ==> r@[j1].0 != r@[j2].0,
            dynamic_slots(self@).finite(),
            dynamic_slots(self@).len() == r@.len(),
    {
        let pairs = self.marks.pairs();
        let n = pairs.len();
        let mut r: Vec<(usize, Mark)> = Vec::new();
        let mut i: usize = 0;
        while i < n
            invariant
                n == pairs@.len(),
                i <= n,
                pairs_map_facts(pairs@, self@),
                forall|j: int|
                    0 <= j < r@.len() ==> exists|k: Seq<char>|
                        dynamic_digit_entry(self@, k, #[trigger] r@[j].0 as int) && r@[j].1
                            == self@[k],
                forall|p: int|
                    #![trigger pairs@[p].0]
                    0 <= p < i && is_digit_string(pairs@[p].0@) && digits_val(pairs@[p].0@)
                        <= usize::MAX as int && pairs@[p].1.mark_type == MarkType::DynamicMark
                        ==> exists|j: int|
                        0 <= j < r@.len() && #[trigger] r@[j].0 as int == digits_val(pairs@[p].0@),
                forall|j1: int, j2: int| 0 <= j1 < j2 < r@.len() ==> r@[j1].0 != r@[j2].0,
            decreases n - i,
        {
            let ghost r_prev = r@;
            let ghost cur = pairs@[i as int];
            let is_dynamic = match pairs[i].1.mark_type {
                MarkType::DynamicMark => true,
                MarkType::StaticMark => false,
            };
            let ghost cur_included = is_dynamic && is_digit_string(cur.0@) && digits_val(cur.0@)
                <= usize::MAX as int;
            if is_dynamic {
                match crate::digits::parse_usize_key(pairs[i].0.as_str()) {
                    Some(slot) => {
                        let already = contains_slot(&r, slot);
                        if !already {
                            let mark = pairs[i].1.clone();
                            r.push((slot, mark));
                            proof {
                                assert(dynamic_digit_entry(self@, cur.0@, slot as int));
                                assert(r@[r@.len() - 1].1 == self@[cur.0@]);
                            }
                        }
                        proof {
                            if already {
                                let j = choose|j: int|
                                    0 <= j < r_prev.len() && #[trigger] r_prev[j].0 == slot;
                                assert(r@[j].0 as int == digits_val(cur.0@));
                            } else {
                                assert(r@[r@.len() - 1].0 as int == digits_val(cur.0@));
                            }
                            assert(exists|j: int|
                                0 <= j < r@.len() && #[trigger] r@[j].0 as int == digits_val(
                                    cur.0@,
                                ));
                        }
                    },
                    None => {
                        proof {
                            assert(!cur_included);
                        }
                    },
                }
            }
            proof {
                assert forall|p: int|
                    #![trigger pairs@[p].0]
                    0 <= p < i + 1 && is_digit_string(pairs@[p].0@) && digits_val(pairs@[p].0@)
                        <= usize::MAX as int && pairs@[p].1.mark_type
                        == MarkType::DynamicMark implies exists|j: int|
                    0 <= j < r@.len() && #[trigger] r@[j].0 as int == digits_val(
                        pairs@[p].0@,
                    ) by {
                    if p < i {
                        let j = choose|j: int|
                            0 <= j < r_prev.len() && #[trigger] r_prev[j].0 as int == digits_val(
                                pairs@[p].0@,
                            );
                        assert(r@[j].0 == r_prev[j].0);
                    }
                }
            }
            i = i + 1;
        }
        proof {
            assert forall|k: Seq<char>|
                self@.contains_key(k) && is_digit_string(k) && digits_val(k) <= usize::MAX as int
                    && self@[k].mark_type == MarkType::DynamicMark implies exists|j: int|
                0 <= j < r@.len() && #[trigger] r@[j].0 as int == digits_val(k) by {
                let p = choose|p: int| 0 <= p < pairs@.len() && #[trigger] pairs@[p].0@ == k;
                assert(pairs@[p].1 == self@[k]);
            }
            // one row per occupied slot, so the listing counts the slots
            broadcast use vstd::seq_lib::seq_to_set_is_finite;

            let slots = r@.map_values(|row: (usize, Mark)| row.0 as int);
            assert(slots.no_duplicates()) by {
                assert forall|i1: int, i2: int|
                    0 <= i1 < slots.len() && 0 <= i2 < slots.len() && i1 != i2 implies slots[i1]
                    != slots[i2] by {
                    if i1 < i2 {
                        assert(r@[i1].0 != r@[i2].0);
                    } else {
                        assert(r@[i2].0 != r@[i1].0);
                    }
                }
            }
            slots.unique_seq_to_set();
            assert(dynamic_slots(self@) =~= slots.to_set()) by {
                assert forall|v: int|
                    dynamic_slots(self@).contains(v) implies slots.to_set().contains(v) by {
                    let k = choose|k: Seq<char>| #[trigger] dynamic_digit_entry(self@, k, v);
                    assert(self@.contains_key(k));
                    let j = choose|j: int|
                        0 <= j < r@.len() && #[trigger] r@[j].0 as int == digits_val(k);
                    assert(slots[j] == v);
                }
                assert forall|v: int|
                    slots.to_set().contains(v) implies dynamic_slots(self@).contains(v) by {
                    let j = choose|j: int| 0 <= j < slots.len() && slots[j] == v;
                    assert(r@[j].0 as int == v);
                }
            }
        }
        r
    }
}

/// The facts `KeyMap::pairs` guarantees, restated so a loop invariant can
/// carry them: each pair is a binding of `m`, and every key of `m` occurs.
pub open spec fn pairs_map_facts(s: Seq<(String, Mark)>, m: Map<Seq<char>, Mark>) -> bool {
    (forall|i: int|
        0 <= i < s.len() ==> m.contains_key(#[trigger] s[i].0@) && m[s[i].0@] == s[i].1) && (forall|
        k: Seq<char>,
    |
        m.contains_key(k) ==> exists|i: int| 0 <= i < s.len() && #[trigger] s[i].0@ == k)
}

/// Exactness law for the slot listing: a listing that is sound (every row
/// comes from a dynamic, integer-keyed entry), complete (every such entry's
/// slot appears) and slot-unique — as `get_dynamic_marks` ensures — holds a
/// row `(n, mark)` exactly when the registry holds a dynamic mark under a
/// key that parses to `n`, and `mark` is that entry's mark. The registry's
/// integer-parseable keys must parse injectively for the row's mark to be
/// pinned; two spellings of one integer would leave the choice open.
pub proof fn lemma_dynamic_marks_exact(
    m: Map<Seq<char>, Mark>,
    rows: Seq<(usize, Mark)>,
    n: usize,
    mark: Mark,
)
    requires
        forall|j: int|
            0 <= j < rows.len() ==> exists|k: Seq<char>|
                dynamic_digit_entry(m, k, #[trigger] rows[j].0 as int) && rows[j].1 == m[k],
        forall|k: Seq<char>|
            #![trigger m.contains_key(k)]
            m.contains_key(k) && is_digit_string(k) && digits_val(k) <= usize::MAX as int
                && m[k].mark_type == MarkType::DynamicMark ==> exists|j: int|
                0 <= j < rows.len() && #[trigger] rows[j].0 as int == digits_val(k),
        forall|k1: Seq<char>, k2: Seq<char>|
            m.contains_key(k1) && m.contains_key(k2) && is_digit_string(k1) && is_digit_string(k2)
                && digits_val(k1) == digits_val(k2) ==> k1 == k2,
    ensures
        (exists|t: int| 0 <= t < rows.len() && rows[t] == (n, mark)) <==> (exists|k: Seq<char>|
            dynamic_digit_entry(m, k, n as int) && mark == m[k]),
{
    if exists|t: int| 0 <= t < rows.len() && rows[t] == (n, mark) {
        let t = choose|t: int| 0 <= t < rows.len() && rows[t] == (n, mark);
        let k = choose|k: Seq<char>|
            dynamic_digit_entry(m, k, rows[t].0 as int) && rows[t].1 == m[k];
        assert(dynamic_digit_entry(m, k, n as int) && mark == m[k]);
    }
    if exists|k: Seq<char>| dynamic_digit_entry(m, k, n as int) && mark == m[k] {
        let k = choose|k: Seq<char>| dynamic_digit_entry(m, k, n as int) && mark == m[k];
        assert(m.contains_key(k));
        let j = choose|j: int| 0 <= j < rows.len() && #[trigger] rows[j].0 as int == digits_val(k);
        let k2 = choose|k2: Seq<char>|
            dynamic_digit_entry(m, k2, rows[j].0 as int) && rows[j].1 == m[k2];
        assert(k2 == k);
        assert(rows[j] == (n, mark));
    }
}

/// Round-trip law: after `set(key, mark)` the registry's contents are
/// `old@.insert(key@, mark)`, and `get(key)` on such contents yields exactly
/// `mark` — for every key and mark.
pub proof fn lemma_set_then_get(m: Map<Seq<char>, Mark>, key: Seq<char>, mark: Mark)
    ensures
        m.insert(key, mark).contains_key(key),
        m.insert(key, mark)[key] == mark,
{
}

/// Whether some row of `r` already carries slot number `slot`.
fn contains_slot(r: &Vec<(usize, Mark)>, slot: usize) -> (b: bool)
    ensures
        b == exists|j: int| 0 <= j < r@.len() && #[trigger] r@[j].0 == slot,
{
    let n = r.len();
    let mut i: usize = 0;
    while i < n
        invariant
            n == r@.len(),
            i <= n,
            forall|j: int| 0 <= j < i ==> #[trigger] r@[j].0 != slot,
        decreases n - i,
    {
        if r[i].0 == slot {
            return true;
        }
        i = i + 1;
    }
    false
}

} // verus!
