//! A model of the live pane set, and the pane locator.
//!
//! The surrounding editor owns the real panes and views; navigation decisions
//! only ever read three things from them, captured here as plain values: which
//! views are live (with their persistent entry identity and current project
//! path), which view ids each pane shows in order, and which pane is active.
//! A mark's weak view handle is upgraded against this state and never assumed
//! live.
//!
//! The locator answers: does some pane already show a mark's target? It tries
//! the active pane first (the cheap, common case), then every other pane in
//! order, and returns the first match. A pane matches when it shows a view
//! with the same persistent entry id as the mark's (still live) view, or —
//! whether or not that view is live — a view whose project path equals the
//! mark's.

use crate::marks::{path_matches, Mark, ProjectPath};
use vstd::prelude::*;

verus! {

/// What navigation reads off one live document view.
pub struct ItemState {
    /// The view's identity; the target of weak view handles.
    pub item_id: u64,
    /// The stable persistent identity of the file entry the view shows.
    pub entry_id: u64,
    /// The view's current project-relative path, if it has one.
    pub project_path: Option<ProjectPath>,
}

/// A pane: an ordered row of open views, named by their ids, and the index
/// of the currently active one.
pub struct Pane {
    pub item_ids: Vec<u64>,
    pub active_item_index: usize,
}

/// The live pane set of one workspace window.
pub struct Workspace {
    /// Every live view, each id unique.
    pub items: Vec<ItemState>,
    /// The pane tree, flattened in traversal order.
    pub panes: Vec<Pane>,
    /// Index of the currently active pane.
    pub active_pane: usize,
}

/// The view named `id` is live.
pub open spec fn item_live(w: &Workspace, id: u64) -> bool {
    exists|i: int| 0 <= i < w.items@.len() && w.items@[i].item_id == id
}

/// The state of the live view named `id`.
pub open spec fn item_state_of(w: &Workspace, id: u64) -> ItemState {
    w.items@[choose|i: int| 0 <= i < w.items@.len() && w.items@[i].item_id == id]
}

impl Workspace {
    /// Well-formed live state: the active pane exists, view ids are unique,
    /// and panes hold their views strongly, so every id a pane shows is live.
    pub open spec fn wf(&self) -> bool {
        &&& self.active_pane < self.panes@.len()
        &&& forall|i: int, j: int|
            0 <= i < j < self.items@.len() ==> self.items@[i].item_id != self.items@[j].item_id
        &&& forall|p: int, j: int|
            0 <= p < self.panes@.len() && 0 <= j < self.panes@[p].item_ids@.len() ==> item_live(
                self,
                #[trigger] self.panes@[p].item_ids@[j],
            )
    }
}

/// Upgrades a weak view handle: the state of the view named `id`, or `None`
/// if that view no longer exists. A dead handle is a normal outcome, never a
/// fault.
pub fn upgrade_item<'a>(w: &'a Workspace, id: u64) -> (r: Option<&'a ItemState>)
    requires
        w.wf(),
    ensures
        match r {
            Some(st) => item_live(w, id) && *st == item_state_of(w, id),
            None => !item_live(w, id),
        },
{
    let n = w.items.len();
    let mut i: usize = 0;
    while i < n
        invariant
            w.wf(),
            n == w.items@.len(),
            i <= n,
            forall|j: int| 0 <= j < i ==> w.items@[j].item_id != id,
        decreases n - i,
    {
        if w.items[i].item_id == id {
            proof {
                let j = choose|j: int| 0 <= j < w.items@.len() && w.items@[j].item_id == id;
                assert(j == i as int);
            }
            return Some(&w.items[i]);
        }
        i = i + 1;
    }
    None
}

/// Pane `p` shows the view named `id`.
pub open spec fn pane_has_item(w: &Workspace, p: int, id: u64) -> bool {
    exists|j: int| 0 <= j < w.panes@[p].item_ids@.len() && w.panes@[p].item_ids@[j] == id
}

/// Pane `p` shows some view whose persistent entry id is `entry_id`.
pub open spec fn pane_has_entry(w: &Workspace, p: int, entry_id: u64) -> bool {
    exists|j: int|
        0 <= j < w.panes@[p].item_ids@.len() && item_live(
            w,
            #[trigger] w.panes@[p].item_ids@[j],
        ) && item_state_of(w, w.panes@[p].item_ids@[j]).entry_id == entry_id
}

/// Pane `p` shows some view whose project path equals `path`.
pub open spec fn pane_has_path(w: &Workspace, p: int, path: ProjectPath) -> bool {
    exists|j: int|
        0 <= j < w.panes@[p].item_ids@.len() && item_live(
            w,
            #[trigger] w.panes@[p].item_ids@[j],
        ) && match item_state_of(w, w.panes@[p].item_ids@[j]).project_path {
            Some(q) => path_matches(q, path),
            None => false,
        }
}

/// Pane `p` already shows `mark`'s target: a view with the same persistent
/// entry id as the mark's still-live view, or — identity being unavailable
/// once that view is gone — a view whose project path equals the mark's.
pub open spec fn pane_matches_mark(w: &Workspace, p: int, mark: Mark) -> bool {
    (item_live(w, mark.entry.item.item_id) && pane_has_entry(
        w,
        p,
        item_state_of(w, mark.entry.item.item_id).entry_id,
    )) || pane_has_path(w, p, mark.project_path)
}

/// The outcome of the pane search: the active pane when it matches, else the
/// first matching pane in order, else nothing.
pub open spec fn pane_search_result(w: &Workspace, mark: Mark, r: Option<usize>) -> bool {
    match r {
        Some(p) => p < w.panes@.len() && pane_matches_mark(w, p as int, mark) && (p as int
            == w.active_pane as int || (!pane_matches_mark(w, w.active_pane as int, mark) && forall|
            q: int,
        | 0 <= q < p ==> !pane_matches_mark(w, q, mark))),
        None => forall|q: int| 0 <= q < w.panes@.len() ==> !pane_matches_mark(w, q, mark),
    }
}

/// Whether pane `p` matches `mark`, decided against the live state.
fn pane_matches(w: &Workspace, p: usize, mark: &Mark) -> (r: bool)
    requires
        w.wf(),
        p < w.panes@.len(),
    ensures
        r == pane_matches_mark(w, p as int, *mark),
{
    let upgraded = upgrade_item(w, mark.entry.item.item_id);
    let pane = &w.panes[p];
    let n = pane.item_ids.len();
    let mut j: usize = 0;
    while j < n
        invariant
            w.wf(),
            p < w.panes@.len(),
            pane == &w.panes@[p as int],
            n == pane.item_ids@.len(),
            j <= n,
            match upgraded {
                Some(st) => item_live(w, mark.entry.item.item_id) && *st == item_state_of(
                    w,
                    mark.entry.item.item_id,
                ),
                None => !item_live(w, mark.entry.item.item_id),
            },
            forall|t: int|
                0 <= t < j ==> !(item_live(w, mark.entry.item.item_id) && item_live(
                    w,
                    #[trigger] pane.item_ids@[t],
                ) && item_state_of(w, pane.item_ids@[t]).entry_id == item_state_of(
                    w,
                    mark.entry.item.item_id,
                ).entry_id),
            forall|t: int|
                0 <= t < j ==> !(item_live(w, #[trigger] pane.item_ids@[t]) && match item_state_of(
                    w,
                    pane.item_ids@[t],
                ).project_path {
                    Some(q) => path_matches(q, mark.project_path),
                    None => false,
                }),
        decreases n - j,
    {
        let id = pane.item_ids[j];
        match upgrade_item(w, id) {
            Some(st) => {
                match upgraded {
                    Some(target) => {
                        if st.entry_id == target.entry_id {
                            return true;
                        }
                    },
                    None => {
                    },
                }
                match &st.project_path {
                    Some(q) => {
                        if crate::marks::project_path_eq(q, &mark.project_path) {
                            return true;
                        }
                    },
                    None => {
                    },
                }
            },
            None => {
                proof {
                    assert(item_live(w, pane.item_ids@[j as int]));
                }
            },
        }
        j = j + 1;
    }
    false
}

/// Searches the live pane set for a pane that already shows `mark`'s target:
/// the active pane first, then every other pane in order, stopping at the
/// first match. Does not rank multiple matches.
pub fn find_pane_for_mark(mark: &Mark, w: &Workspace) -> (r: Option<usize>)
    requires
        w.wf(),
    ensures
        pane_search_result(w, *mark, r),
{
    let active = w.active_pane;
    if pane_matches(w, active, mark) {
        return Some(active);
    }
    let n = w.panes.len();
    let mut p: usize = 0;
    while p < n
        invariant
            w.wf(),
            n == w.panes@.len(),
            p <= n,
            !pane_matches_mark(w, w.active_pane as int, *mark),
            forall|q: int| 0 <= q < p ==> !pane_matches_mark(w, q, *mark),
        decreases n - p,
    {
        if pane_matches(w, p, mark) {
            return Some(p);
        }
        p = p + 1;
    }
    None
}

/// The first index at which pane `p` shows the view named `id`.
pub open spec fn first_item_index(ids: Seq<u64>, id: u64, j: int) -> bool {
    0 <= j < ids.len() && ids[j] == id && forall|t: int| 0 <= t < j ==> ids[t] != id
}

/// The index of the view named `id` within a pane, if the pane shows it.
pub fn index_of_item(pane: &Pane, id: u64) -> (r: Option<usize>)
    ensures
        match r {
            Some(j) => first_item_index(pane.item_ids@, id, j as int),
            None => forall|t: int| 0 <= t < pane.item_ids@.len() ==> pane.item_ids@[t] != id,
        },
{
    let n = pane.item_ids.len();
    let mut j: usize = 0;
    while j < n
        invariant
            n == pane.item_ids@.len(),
            j <= n,
            forall|t: int| 0 <= t < j ==> pane.item_ids@[t] != id,
        decreases n - j,
    {
        if pane.item_ids[j] == id {
            return Some(j);
        }
        j = j + 1;
    }
    None
}

} // verus!
