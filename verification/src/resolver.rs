//! The navigation resolver: the decision steps of one jump to a mark.
//!
//! A jump has one synchronous decision and up to two asynchronous ones. First
//! the registry is consulted and the pane locator is run: if some pane already
//! shows the target, the jump stays synchronous — focus that pane and, when
//! the mark's own view is among its items, activate it and replay the mark's
//! navigation payload; no open is triggered. Otherwise an asynchronous open
//! by project path begins, scoped to the active pane; if it fails, and only
//! if the mark recorded an absolute path, an open by absolute path follows;
//! if that fails too, the jump is over and both failure causes are reported
//! together — neither alone is enough context.
//!
//! The caller owns the actual suspension: it runs the opens and feeds each
//! outcome back into the step functions below. Every handle captured across a
//! suspension is weak; the caller re-checks the target pane on resume and
//! passes the result in, and a dead pane aborts the continuation cleanly
//! wherever the pane would be needed.

use crate::marks::{GlobalMarks, ProjectPath};
use crate::workspace::{
    find_pane_for_mark, first_item_index, index_of_item, item_live, pane_search_result, Workspace,
};
use vstd::prelude::*;

verus! {

/// Activation of a view that a pane already shows: the view's index within
/// the pane, and the mark's payload to replay on it.
pub struct ActivateItem {
    pub item_index: usize,
    pub payload: Option<u64>,
}

/// Everything the asynchronous continuation needs from the mark and the
/// moment the jump started: the pane the open is scoped to and the mark's
/// paths, payload and preview flag. Held as plain values so the continuation
/// owns nothing of the live workspace.
pub struct PendingOpen {
    pub pane: usize,
    pub project_path: ProjectPath,
    pub absolute_path: Option<String>,
    pub payload: Option<u64>,
    pub is_preview: bool,
}

/// The synchronous part of a jump: what to do before any open is needed.
pub enum NavigateStart {
    /// No mark is stored under the requested key. Jumping to an unset mark
    /// is not an error; the caller decides whether to surface it.
    MarkAbsent,
    /// A pane already shows the target: focus it, and activate the mark's
    /// own view at this index when that view is among the pane's items.
    FocusPane { pane: usize, activate: Option<ActivateItem> },
    /// No pane shows the target: begin the asynchronous open by project
    /// path, scoped to the active pane.
    OpenProjectPath { pending: PendingOpen },
}

/// Decides the synchronous part of a jump to the mark stored under `key`.
///
/// No pane is focused and no open is started for an absent key; a located
/// pane is focused without any open; only a miss starts the open sequence,
/// and it carries the mark's data out as plain values.
pub fn navigate_mark(key: &String, registry: &GlobalMarks, w: &Workspace) -> (r: NavigateStart)
    requires
        w.wf(),
    ensures
        match r {
            NavigateStart::MarkAbsent => !registry@.contains_key(key@),
            NavigateStart::FocusPane { pane, activate } => registry@.contains_key(key@)
                && pane_search_result(w, registry@[key@], Some(pane)) && {
                let mark = registry@[key@];
                match activate {
                    Some(act) => item_live(w, mark.entry.item.item_id) && first_item_index(
                        w.panes@[pane as int].item_ids@,
                        mark.entry.item.item_id,
                        act.item_index as int,
                    ) && act.payload == mark.entry.data,
                    None => !item_live(w, mark.entry.item.item_id) || (forall|t: int|
                        0 <= t < w.panes@[pane as int].item_ids@.len()
                            ==> w.panes@[pane as int].item_ids@[t] != mark.entry.item.item_id),
                }
            },
            NavigateStart::OpenProjectPath { pending } => registry@.contains_key(key@)
                && pane_search_result(w, registry@[key@], None) && {
                let mark = registry@[key@];
                &&& pending.pane == w.active_pane
                &&& pending.project_path == mark.project_path
                &&& pending.absolute_path == mark.absolute_path
                &&& pending.payload == mark.entry.data
                &&& pending.is_preview == mark.entry.is_preview
            },
        },
{
    let mark = match registry.get(key) {
        Some(mark) => mark,
        None => {
            return NavigateStart::MarkAbsent;
        },
    };
    match find_pane_for_mark(mark, w) {
        Some(pane) => {
            let activate = match upgrade_in_pane(w, pane, mark.entry.item.item_id) {
                Some(item_index) => Some(
                    ActivateItem { item_index, payload: mark.entry.data },
                ),
                None => None,
            };
            NavigateStart::FocusPane { pane, activate }
        },
        None => {
            let pending = PendingOpen {
                pane: w.active_pane,
                project_path: mark.project_path.clone(),
                absolute_path: match &mark.absolute_path {
                    Some(p) => Some(p.clone()),
                    None => None,
                },
                payload: mark.entry.data,
                is_preview: mark.entry.is_preview,
            };
            NavigateStart::OpenProjectPath { pending }
        },
    }
}

/// The index of the still-live view named `id` within pane `pane`, or `None`
/// when the view is gone or the pane does not show it.
fn upgrade_in_pane(w: &Workspace, pane: usize, id: u64) -> (r: Option<usize>)
    requires
        w.wf(),
        pane < w.panes@.len(),
    ensures
        match r {
            Some(j) => item_live(w, id) && first_item_index(
                w.panes@[pane as int].item_ids@,
                id,
                j as int,
            ),
            None => !item_live(w, id) || (forall|t: int|
                0 <= t < w.panes@[pane as int].item_ids@.len()
                    ==> w.panes@[pane as int].item_ids@[t] != id),
        },
{
    match crate::workspace::upgrade_item(w, id) {
        Some(_) => index_of_item(&w.panes[pane], id),
        None => None,
    }
}

/// One asynchronous open, as the resolver sees it: the opened view's id, or
/// the cause of the failure.
pub enum OpenResult {
    Opened(u64),
    OpenFailed(String),
}

/// What follows the open by project path.
pub enum AfterProjectOpen {
    /// The open succeeded: replay the payload on the opened view.
    ReplayOnItem { item_id: u64, payload: Option<u64> },
    /// The open failed and the mark recorded an absolute path: try that
    /// path next, carrying the first failure's cause along.
    OpenAbsolutePath { pane: usize, absolute_path: String, payload: Option<u64>, project_error: String },
    /// The open failed and no absolute path exists: the jump is over, with
    /// the one failure cause it produced.
    NavigationFailed { project_error: String, absolute_error: Option<String> },
    /// The target pane died while the open was in flight: no view is
    /// touched and nothing further runs.
    Aborted,
}

/// Decides what follows the open by project path. `pane_live` is whether the
/// target pane still exists at resumption; the continuation aborts wherever
/// the pane would be needed, and reports a terminal failure even without it.
pub fn resolve_project_open(pending: PendingOpen, pane_live: bool, result: OpenResult) -> (r:
    AfterProjectOpen)
    ensures
        match result {
            OpenResult::Opened(item_id) => if pane_live {
                r == (AfterProjectOpen::ReplayOnItem { item_id, payload: pending.payload })
            } else {
                r == AfterProjectOpen::Aborted
            },
            OpenResult::OpenFailed(project_error) => match pending.absolute_path {
                Some(absolute_path) => if pane_live {
                    r == (AfterProjectOpen::OpenAbsolutePath {
                        pane: pending.pane,
                        absolute_path,
                        payload: pending.payload,
                        project_error,
                    })
                } else {
                    r == AfterProjectOpen::Aborted
                },
                None => r == (AfterProjectOpen::NavigationFailed {
                    project_error,
                    absolute_error: None,
                }),
            },
        },
{
    match result {
        OpenResult::Opened(item_id) => {
            if pane_live {
                AfterProjectOpen::ReplayOnItem { item_id, payload: pending.payload }
            } else {
                AfterProjectOpen::Aborted
            }
        },
        OpenResult::OpenFailed(project_error) => match pending.absolute_path {
            Some(absolute_path) => {
                if pane_live {
                    AfterProjectOpen::OpenAbsolutePath {
                        pane: pending.pane,
                        absolute_path,
                        payload: pending.payload,
                        project_error,
                    }
                } else {
                    AfterProjectOpen::Aborted
                }
            },
            None => AfterProjectOpen::NavigationFailed { project_error, absolute_error: None },
        },
    }
}

/// What follows the open by absolute path: the end of the jump.
pub enum AfterAbsoluteOpen {
    /// The fallback open succeeded: replay the payload on the opened view.
    ReplayOnItem { item_id: u64, payload: Option<u64> },
    /// Both opens failed: the jump is over, and both distinct failure
    /// causes are reported together.
    NavigationFailed { project_error: String, absolute_error: Option<String> },
    /// The target pane died while the open was in flight.
    Aborted,
}

/// Decides what follows the open by absolute path. A failure is reported
/// with both causes whether or not the pane survived; the pane is needed
/// only to show a successfully opened view.
pub fn resolve_absolute_open(
    project_error: String,
    payload: Option<u64>,
    pane_live: bool,
    result: OpenResult,
) -> (r: AfterAbsoluteOpen)
    ensures
        match result {
            OpenResult::Opened(item_id) => if pane_live {
                r == (AfterAbsoluteOpen::ReplayOnItem { item_id, payload })
            } else {
                r == AfterAbsoluteOpen::Aborted
            },
            OpenResult::OpenFailed(absolute_error) => r == (AfterAbsoluteOpen::NavigationFailed {
                project_error,
                absolute_error: Some(absolute_error),
            }),
        },
{
    match result {
        OpenResult::Opened(item_id) => {
            if pane_live {
                AfterAbsoluteOpen::ReplayOnItem { item_id, payload }
            } else {
                AfterAbsoluteOpen::Aborted
            }
        },
        OpenResult::OpenFailed(absolute_error) => AfterAbsoluteOpen::NavigationFailed {
            project_error,
            absolute_error: Some(absolute_error),
        },
    }
}

} // verus!
