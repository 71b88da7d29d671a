//! The quick-switcher view model.
//!
//! Bridges the dynamic-mark slots to a generic list picker: one row per
//! occupied slot whose view is still live, in slot order. The picker asks for
//! a row count, a selected index and per-row data; confirming a row activates
//! its view in the session's pane. Rendering (labels, icons, indicators) is
//! the picker's own business and happens outside this crate, from the row
//! data exposed here.

use crate::marks::Mark;
use crate::workspace::{item_live, upgrade_item, Workspace};
use vstd::prelude::*;

verus! {

/// What one picker row shows: the matched view and its tab state.
#[derive(Clone, Copy, PartialEq, Eq, Structural, Debug)]
pub struct TabMatch {
    pub item_index: usize,
    pub item_id: u64,
    pub detail: usize,
    pub preview: bool,
}

/// The row data of a dynamic mark: its view, at tab index zero, no detail,
/// not a preview.
pub open spec fn tab_match_of(m: Mark) -> TabMatch {
    TabMatch { item_index: 0, item_id: m.entry.item.item_id, detail: 0, preview: false }
}

/// `row` shows one of the listed dynamic marks: some entry carries its slot,
/// that mark's view is live, and the row data is that mark's.
pub open spec fn row_from(
    dynamic_marks: Seq<(usize, Mark)>,
    w: &Workspace,
    row: (usize, TabMatch),
) -> bool {
    exists|j: int|
        0 <= j < dynamic_marks.len() && (#[trigger] dynamic_marks[j].0) == row.0 && item_live(
            w,
            dynamic_marks[j].1.entry.item.item_id,
        ) && row.1 == tab_match_of(dynamic_marks[j].1)
}

/// Some row of `rows` carries slot number `slot`.
pub open spec fn slot_listed(rows: Seq<(usize, TabMatch)>, slot: usize) -> bool {
    exists|t: int| 0 <= t < rows.len() && (#[trigger] rows[t].0) == slot
}

/// The quick switcher's picker delegate: the slot rows currently shown, the
/// highlighted row, and whether the session was opened asking for the last
/// row to be preselected.
pub struct HarpoonDelegate {
    select_last: bool,
    selected_index: usize,
    matches: Vec<(usize, TabMatch)>,
}

impl HarpoonDelegate {
    /// Rows are sorted by slot, so row `t` shows the `t`-th occupied slot,
    /// and every slot is one of the nine quick-switcher slots.
    #[verifier::type_invariant]
    spec fn wf(&self) -> bool {
        &&& forall|i: int, j: int|
            0 <= i < j < self.matches@.len() ==> self.matches@[i].0 < self.matches@[j].0
        &&& forall|i: int| 0 <= i < self.matches@.len() ==> (#[trigger] self.matches@[i].0) < 9
    }

    /// The rows shown, in slot order: slot number and row data.
    pub closed spec fn rows(&self) -> Seq<(usize, TabMatch)> {
        self.matches@
    }

    /// The highlighted row index.
    pub closed spec fn spec_selected(&self) -> usize {
        self.selected_index
    }

    /// Whether the session asked for the last row to be preselected.
    pub closed spec fn spec_select_last(&self) -> bool {
        self.select_last
    }

    /// A fresh delegate: no rows, the first row highlighted.
    pub fn new(select_last: bool) -> (r: Self)
        ensures
            r.rows() == Seq::<(usize, TabMatch)>::empty(),
            r.spec_selected() == 0,
            r.spec_select_last() == select_last,
    {
        HarpoonDelegate { select_last, selected_index: 0, matches: Vec::new() }
    }

    /// The number of rows the picker should show.
    pub fn match_count(&self) -> (r: usize)
        ensures
            r == self.rows().len(),
    {
        proof {
            use_type_invariant(&*self);
        }
        self.matches.len()
    }

    /// The highlighted row index.
    pub fn selected_index(&self) -> (r: usize)
        ensures
            r == self.spec_selected(),
    {
        self.selected_index
    }

    /// Moves the highlight.
    pub fn set_selected_index(&mut self, ix: usize)
        ensures
            final(self).rows() == old(self).rows(),
            final(self).spec_selected() == ix,
            final(self).spec_select_last() == old(self).spec_select_last(),
    {
        proof {
            use_type_invariant(&*self);
        }
        self.selected_index = ix;
    }

    /// The picker draws no separators between rows.
    pub fn separators_after_indices(&self) -> (r: Vec<usize>)
        ensures
            r@.len() == 0,
    {
        Vec::new()
    }

    /// Rebuilds the rows from the registry's dynamic marks: one row for each
    /// of the nine slots that holds a mark whose view is still live, in slot
    /// order. Marks whose view is gone are left out rather than shown dead;
    /// they remain in the registry and resurrect through navigation.
    ///
    /// `dynamic_marks` is the registry's slot listing, one entry per slot.
    #[verifier::rlimit(50)]
    pub fn update_matches(&mut self, dynamic_marks: &Vec<(usize, Mark)>, w: &Workspace)
        requires
            w.wf(),
            forall|j1: int, j2: int|
                0 <= j1 < j2 < dynamic_marks@.len() ==> dynamic_marks@[j1].0
                    != dynamic_marks@[j2].0,
        ensures
            final(self).spec_selected() == old(self).spec_selected(),
            final(self).spec_select_last() == old(self).spec_select_last(),
            forall|t: int|
                #![trigger final(self).rows()[t]]
                0 <= t < final(self).rows().len() ==> final(self).rows()[t].0 < 9 && row_from(
                    dynamic_marks@,
                    w,
                    final(self).rows()[t],
                ),
            forall|j: int|
                0 <= j < dynamic_marks@.len() && (#[trigger] dynamic_marks@[j].0) < 9 && item_live(
                    w,
                    dynamic_marks@[j].1.entry.item.item_id,
                ) ==> slot_listed(final(self).rows(), dynamic_marks@[j].0),
            forall|t1: int, t2: int|
                0 <= t1 < t2 < final(self).rows().len() ==> final(self).rows()[t1].0
                    < final(self).rows()[t2].0,
    {
        proof {
            use_type_invariant(&*self);
        }
        let mut rows: Vec<(usize, TabMatch)> = Vec::new();
        let mut n: usize = 0;
        while n < 9
            invariant
                w.wf(),
                n <= 9,
                forall|j1: int, j2: int|
                    0 <= j1 < j2 < dynamic_marks@.len() ==> dynamic_marks@[j1].0
                        != dynamic_marks@[j2].0,
                forall|t1: int, t2: int| 0 <= t1 < t2 < rows@.len() ==> rows@[t1].0 < rows@[t2].0,
                forall|t: int|
                    #![trigger rows@[t]]
                    0 <= t < rows@.len() ==> rows@[t].0 < n && row_from(
                        dynamic_marks@,
                        w,
                        rows@[t],
                    ),
                forall|j: int|
                    0 <= j < dynamic_marks@.len() && (#[trigger] dynamic_marks@[j].0) < n
                        && item_live(w, dynamic_marks@[j].1.entry.item.item_id) ==> slot_listed(
                        rows@,
                        dynamic_marks@[j].0,
                    ),
            decreases 9 - n,
        {
            let ghost rows_prev = rows@;
            match find_slot(dynamic_marks, n) {
                Some(mark) => {
                    let live = match upgrade_item(w, mark.entry.item.item_id) {
                        Some(_) => true,
                        None => false,
                    };
                    if live {
                        rows.push(
                            (
                                n,
                                TabMatch {
                                    item_index: 0,
                                    item_id: mark.entry.item.item_id,
                                    detail: 0,
                                    preview: false,
                                },
                            ),
                        );
                        proof {
                            let j0 = choose|j: int|
                                0 <= j < dynamic_marks@.len() && (#[trigger] dynamic_marks@[j].0)
                                    == n && dynamic_marks@[j].1 == *mark;
                            assert(row_from(dynamic_marks@, w, rows@[rows@.len() - 1]));
                            assert forall|t: int|
                                #![trigger rows@[t]]
                                0 <= t < rows@.len() implies rows@[t].0 < n + 1 && row_from(
                                dynamic_marks@,
                                w,
                                rows@[t],
                            ) by {
                                if t < rows@.len() - 1 {
                                    assert(rows@[t] == rows_prev[t]);
                                }
                            }
                        }
                    }
                },
                None => {
                },
            }
            proof {
                assert forall|j: int|
                    0 <= j < dynamic_marks@.len() && (#[trigger] dynamic_marks@[j].0) < n + 1
                        && item_live(w, dynamic_marks@[j].1.entry.item.item_id) implies slot_listed(
                    rows@,
                    dynamic_marks@[j].0,
                ) by {
                    if dynamic_marks@[j].0 < n {
                        let t = choose|t: int|
                            0 <= t < rows_prev.len() && (#[trigger] rows_prev[t].0)
                                == dynamic_marks@[j].0;
                        assert(rows@[t].0 == dynamic_marks@[j].0);
                    } else {
                        assert(rows@[rows@.len() - 1].0 == dynamic_marks@[j].0);
                    }
                }
            }
            n = n + 1;
        }
        self.matches = rows;
    }

    /// The row data at row `ix`: the `ix`-th occupied slot in slot order,
    /// or nothing for an index past the last row.
    pub fn match_for_row(&self, ix: usize) -> (r: Option<&(usize, TabMatch)>)
        ensures
            match r {
                Some(row) => ix < self.rows().len() && *row == self.rows()[ix as int],
                None => ix >= self.rows().len(),
            },
    {
        proof {
            use_type_invariant(&*self);
        }
        if ix < self.matches.len() {
            Some(&self.matches[ix])
        } else {
            None
        }
    }

    /// Confirms the highlighted entry: the tab index to activate in the
    /// session's pane, keyed by the highlight as a slot number, or nothing
    /// when no row carries that slot.
    pub fn confirm(&self) -> (r: Option<usize>)
        ensures
            match r {
                Some(idx) => exists|t: int|
                    0 <= t < self.rows().len() && (#[trigger] self.rows()[t].0)
                        == self.spec_selected() && self.rows()[t].1.item_index == idx,
                None => forall|t: int|
                    0 <= t < self.rows().len() ==> (#[trigger] self.rows()[t].0)
                        != self.spec_selected(),
            },
    {
        proof {
            use_type_invariant(&*self);
        }
        let n = self.matches.len();
        let mut t: usize = 0;
        while t < n
            invariant
                n == self.matches@.len(),
                t <= n,
                self.rows() == self.matches@,
                forall|u: int| 0 <= u < t ==> (#[trigger] self.matches@[u].0) != self.selected_index,
            decreases n - t,
        {
            if self.matches[t].0 == self.selected_index {
                return Some(self.matches[t].1.item_index);
            }
            t = t + 1;
        }
        None
    }
}

/// The mark of the entry carrying slot `n`, if one exists in the listing.
fn find_slot<'a>(dynamic_marks: &'a Vec<(usize, Mark)>, n: usize) -> (r: Option<&'a Mark>)
    ensures
        match r {
            Some(m) => exists|j: int|
                0 <= j < dynamic_marks@.len() && (#[trigger] dynamic_marks@[j].0) == n
                    && dynamic_marks@[j].1 == *m,
            None => forall|j: int|
                0 <= j < dynamic_marks@.len() ==> (#[trigger] dynamic_marks@[j].0) != n,
        },
{
    let len = dynamic_marks.len();
    let mut j: usize = 0;
    while j < len
        invariant
            len == dynamic_marks@.len(),
            j <= len,
            forall|u: int| 0 <= u < j ==> (#[trigger] dynamic_marks@[u].0) != n,
        decreases len - j,
    {
        if dynamic_marks[j].0 == n {
            return Some(&dynamic_marks[j].1);
        }
        j = j + 1;
    }
    None
}

} // verus!
