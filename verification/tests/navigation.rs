use harpoon::marks::{GlobalMarks, Mark, MarkType, NavigationEntry, ProjectPath, WeakItemHandle};
use harpoon::resolver::{
    navigate_mark, resolve_absolute_open, resolve_project_open, AfterAbsoluteOpen,
    AfterProjectOpen, NavigateStart, OpenResult, PendingOpen,
};
use harpoon::workspace::{ItemState, Pane, Workspace};

fn mark_with(path: &str, absolute: Option<&str>, item: u64, payload: Option<u64>) -> Mark {
    Mark {
        project_path: ProjectPath { worktree_id: 1, path: String::from(path) },
        absolute_path: absolute.map(String::from),
        mark_type: MarkType::DynamicMark,
        entry: NavigationEntry {
            item: WeakItemHandle { item_id: item },
            data: payload,
            timestamp: 0,
            is_preview: false,
        },
    }
}

fn item(item_id: u64, entry_id: u64, path: Option<&str>) -> ItemState {
    ItemState {
        item_id,
        entry_id,
        project_path: path.map(|p| ProjectPath { worktree_id: 1, path: String::from(p) }),
    }
}

fn pane(ids: &[u64]) -> Pane {
    Pane { item_ids: ids.to_vec(), active_item_index: 0 }
}

#[test]
fn live_view_activates_in_its_pane_without_open() {
    // mark "5" -> live view 30 sits in pane 1 at index 2
    let mut registry = GlobalMarks::new();
    registry.set(String::from("5"), mark_with("m.rs", None, 30, Some(77)));
    let w = Workspace {
        items: vec![
            item(10, 100, Some("a.rs")),
            item(20, 200, Some("b.rs")),
            item(30, 300, Some("m.rs")),
        ],
        panes: vec![pane(&[10]), pane(&[20, 20, 30])],
        active_pane: 0,
    };
    match navigate_mark(&String::from("5"), &registry, &w) {
        NavigateStart::FocusPane { pane, activate } => {
            assert_eq!(pane, 1);
            let act = activate.expect("the mark's own view is in the pane");
            assert_eq!(act.item_index, 2);
            assert_eq!(act.payload, Some(77));
        }
        _ => panic!("expected a synchronous pane hit"),
    }
}

#[test]
fn active_pane_is_preferred() {
    // the target is open in both panes; the active pane (1) wins
    let mut registry = GlobalMarks::new();
    registry.set(String::from("1"), mark_with("m.rs", None, 30, None));
    let w = Workspace {
        items: vec![item(30, 300, Some("m.rs")), item(40, 300, Some("m.rs"))],
        panes: vec![pane(&[30]), pane(&[40])],
        active_pane: 1,
    };
    match navigate_mark(&String::from("1"), &registry, &w) {
        NavigateStart::FocusPane { pane, activate } => {
            assert_eq!(pane, 1);
            // the mark's own view (30) is not in pane 1, so nothing activates
            assert!(activate.is_none());
        }
        _ => panic!("expected a synchronous pane hit"),
    }
}

#[test]
fn dead_view_still_matches_by_path() {
    // view 30 was closed, but pane 1 shows another view on the same path
    let mut registry = GlobalMarks::new();
    registry.set(String::from("2"), mark_with("m.rs", None, 30, None));
    let w = Workspace {
        items: vec![item(10, 100, Some("a.rs")), item(40, 400, Some("m.rs"))],
        panes: vec![pane(&[10]), pane(&[40])],
        active_pane: 0,
    };
    match navigate_mark(&String::from("2"), &registry, &w) {
        NavigateStart::FocusPane { pane, activate } => {
            assert_eq!(pane, 1);
            assert!(activate.is_none());
        }
        _ => panic!("expected a synchronous pane hit"),
    }
}

#[test]
fn absent_mark_is_silent() {
    let registry = GlobalMarks::new();
    let w = Workspace { items: vec![], panes: vec![pane(&[])], active_pane: 0 };
    assert!(matches!(
        navigate_mark(&String::from("8"), &registry, &w),
        NavigateStart::MarkAbsent
    ));
}

fn closed_view_start() -> NavigateStart {
    let mut registry = GlobalMarks::new();
    registry.set(
        String::from("4"),
        mark_with("gone.rs", Some("/abs/gone.rs"), 30, Some(5)),
    );
    let w = Workspace {
        items: vec![item(10, 100, Some("a.rs"))],
        panes: vec![pane(&[10]), pane(&[])],
        active_pane: 1,
    };
    navigate_mark(&String::from("4"), &registry, &w)
}

#[test]
fn miss_starts_project_path_open_in_active_pane() {
    match closed_view_start() {
        NavigateStart::OpenProjectPath { pending } => {
            assert_eq!(pending.pane, 1);
            assert_eq!(pending.project_path.path, "gone.rs");
            assert_eq!(pending.absolute_path.as_deref(), Some("/abs/gone.rs"));
            assert_eq!(pending.payload, Some(5));
            assert!(!pending.is_preview);
        }
        _ => panic!("expected the asynchronous open to start"),
    }
}

fn pending(absolute: Option<&str>) -> PendingOpen {
    PendingOpen {
        pane: 0,
        project_path: ProjectPath { worktree_id: 1, path: String::from("gone.rs") },
        absolute_path: absolute.map(String::from),
        payload: Some(5),
        is_preview: false,
    }
}

#[test]
fn project_open_success_replays_without_absolute_attempt() {
    match resolve_project_open(pending(Some("/abs/gone.rs")), true, OpenResult::Opened(50)) {
        AfterProjectOpen::ReplayOnItem { item_id, payload } => {
            assert_eq!(item_id, 50);
            assert_eq!(payload, Some(5));
        }
        _ => panic!("a successful project open ends the jump"),
    }
}

#[test]
fn project_open_failure_falls_back_to_absolute_path() {
    let failed = OpenResult::OpenFailed(String::from("worktree dropped"));
    match resolve_project_open(pending(Some("/abs/gone.rs")), true, failed) {
        AfterProjectOpen::OpenAbsolutePath { pane, absolute_path, payload, project_error } => {
            assert_eq!(pane, 0);
            assert_eq!(absolute_path, "/abs/gone.rs");
            assert_eq!(payload, Some(5));
            assert_eq!(project_error, "worktree dropped");
        }
        _ => panic!("expected the absolute-path fallback"),
    }
    match resolve_absolute_open(String::from("worktree dropped"), Some(5), true, OpenResult::Opened(60)) {
        AfterAbsoluteOpen::ReplayOnItem { item_id, payload } => {
            assert_eq!(item_id, 60);
            assert_eq!(payload, Some(5));
        }
        _ => panic!("a successful absolute open ends the jump"),
    }
}

#[test]
fn failure_without_absolute_path_is_terminal() {
    let failed = OpenResult::OpenFailed(String::from("worktree dropped"));
    match resolve_project_open(pending(None), true, failed) {
        AfterProjectOpen::NavigationFailed { project_error, absolute_error } => {
            assert_eq!(project_error, "worktree dropped");
            assert!(absolute_error.is_none());
        }
        _ => panic!("no absolute path leaves the failure terminal"),
    }
}

#[test]
fn double_failure_reports_both_causes() {
    let failed = OpenResult::OpenFailed(String::from("worktree dropped"));
    match resolve_project_open(pending(Some("/abs/gone.rs")), true, failed) {
        AfterProjectOpen::OpenAbsolutePath { project_error, .. } => {
            let failed_abs = OpenResult::OpenFailed(String::from("file deleted"));
            match resolve_absolute_open(project_error, Some(5), true, failed_abs) {
                AfterAbsoluteOpen::NavigationFailed { project_error, absolute_error } => {
                    assert_eq!(project_error, "worktree dropped");
                    assert_eq!(absolute_error.as_deref(), Some("file deleted"));
                }
                _ => panic!("both causes must be reported together"),
            }
        }
        _ => panic!("expected the absolute-path fallback"),
    }
}

#[test]
fn dead_pane_aborts_the_continuation() {
    assert!(matches!(
        resolve_project_open(pending(Some("/abs/gone.rs")), false, OpenResult::Opened(50)),
        AfterProjectOpen::Aborted
    ));
    let failed = OpenResult::OpenFailed(String::from("worktree dropped"));
    assert!(matches!(
        resolve_project_open(pending(Some("/abs/gone.rs")), false, failed),
        AfterProjectOpen::Aborted
    ));
    assert!(matches!(
        resolve_absolute_open(String::from("e"), None, false, OpenResult::Opened(60)),
        AfterAbsoluteOpen::Aborted
    ));
    // a terminal failure is reported even without the pane
    let failed_abs = OpenResult::OpenFailed(String::from("file deleted"));
    match resolve_absolute_open(String::from("worktree dropped"), None, false, failed_abs) {
        AfterAbsoluteOpen::NavigationFailed { project_error, absolute_error } => {
            assert_eq!(project_error, "worktree dropped");
            assert_eq!(absolute_error.as_deref(), Some("file deleted"));
        }
        _ => panic!("failure reporting needs no pane"),
    }
}
