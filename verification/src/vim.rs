//! Named-mark commands: creating marks and deciding jumps.
//!
//! A mark command carries a key. A key whose first character is a decimal
//! digit denotes a dynamic mark and goes to the global registry, so the jump
//! can survive the view being closed; every other key denotes a static named
//! mark (vim-style letter marks, or synthetic keys such as `"<"`, `">"` and
//! `"."`) stored as plain selection anchors in the session's own table.
//!
//! Anchors are opaque handles the editor hands out for positions in a
//! document; this crate stores, selects and deduplicates them but never looks
//! inside. The editor computes them (and, for line-wise jumps, adjusts them
//! to the first non-blank column) before the decisions below run.

use crate::digits::is_digit_char;
use crate::keymap::KeyMap;
use crate::marks::{GlobalMarks, Mark, MarkType, NavigationEntry, ProjectPath, WeakItemHandle};
use vstd::prelude::*;

verus! {

/// The editing mode a session is in; visual modes carry a selection.
#[derive(Clone, Copy, PartialEq, Eq, Structural, Debug)]
pub enum Mode {
    Normal,
    Insert,
    Visual,
    VisualLine,
    VisualBlock,
}

/// The mode holds a visual selection.
pub open spec fn is_visual(m: Mode) -> bool {
    m == Mode::Visual || m == Mode::VisualLine || m == Mode::VisualBlock
}

/// One editing session's mark-related state: its mode, its static named
/// marks (each a set of selection anchors), the change list, and the
/// selection shape remembered when visual mode was left.
pub struct VimState {
    pub mode: Mode,
    pub marks: KeyMap<Vec<u64>>,
    pub change_list: Vec<Vec<u64>>,
    pub stored_visual_mode: Option<(Mode, Vec<bool>)>,
}

/// What a mark command reads off the session's editor, if that editor still
/// exists: the file's project path (absent for an editor with no associated
/// file), its best-effort absolute path, and a weak handle to the view.
pub struct EditorSnapshot {
    pub project_path: Option<ProjectPath>,
    pub absolute_path: Option<String>,
    pub item: WeakItemHandle,
}

/// The dynamic mark a digit-keyed mark command stores: no payload, not a
/// preview.
pub open spec fn dynamic_mark_from_editor(
    project_path: ProjectPath,
    absolute_path: Option<String>,
    item: WeakItemHandle,
) -> Mark {
    Mark {
        project_path,
        absolute_path,
        mark_type: MarkType::DynamicMark,
        entry: NavigationEntry { item, data: None, timestamp: 0, is_preview: false },
    }
}

/// The key's first character is a decimal digit, so it denotes a dynamic
/// mark.
pub open spec fn digit_keyed(s: Seq<char>) -> bool {
    s.len() > 0 && is_digit_char(s[0])
}

/// How a mark-creation command ended.
#[derive(Clone, Copy, PartialEq, Eq, Structural, Debug)]
pub enum CreateMarkOutcome {
    /// A dynamic mark was stored in the global registry under the key.
    DynamicMarkSet,
    /// A static named mark was stored in the session under the key.
    NamedMarkSet,
    /// Digit key, but the editor view is gone: nothing stored.
    EditorGone,
    /// Digit key, but the editor has no associated file: nothing stored.
    MissingProjectPath,
}

/// Creates the mark named `text` at the current selection.
///
/// A digit key stores a dynamic mark in the global registry — requiring a
/// live editor with a project path, since the mark must be able to reopen
/// the file later; failing that, nothing is stored. Any other key stores
/// `anchors` as a static named mark in the session.
pub fn create_mark(
    vim: &mut VimState,
    registry: &mut GlobalMarks,
    text: String,
    anchors: Vec<u64>,
    editor: Option<&EditorSnapshot>,
) -> (r: CreateMarkOutcome)
    ensures
        final(vim).mode == old(vim).mode,
        final(vim).change_list == old(vim).change_list,
        final(vim).stored_visual_mode == old(vim).stored_visual_mode,
        if digit_keyed(text@) {
            final(vim).marks@ == old(vim).marks@ && match editor {
                Some(snapshot) => match snapshot.project_path {
                    Some(pp) => r == CreateMarkOutcome::DynamicMarkSet && final(registry)@ == old(
                        registry,
                    )@.insert(
                        text@,
                        dynamic_mark_from_editor(pp, snapshot.absolute_path, snapshot.item),
                    ),
                    None => r == CreateMarkOutcome::MissingProjectPath && final(registry)@ == old(
                        registry,
                    )@,
                },
                None => r == CreateMarkOutcome::EditorGone && final(registry)@ == old(registry)@,
            }
        } else {
            final(registry)@ == old(registry)@ && final(vim).marks@ == old(vim).marks@.insert(
                text@,
                anchors,
            ) && r == CreateMarkOutcome::NamedMarkSet
        },
{
    if crate::digits::starts_with_digit(text.as_str()) {
        match editor {
            Some(snapshot) => match &snapshot.project_path {
                Some(pp) => {
                    let mark = Mark {
                        project_path: pp.clone(),
                        absolute_path: match &snapshot.absolute_path {
                            Some(p) => Some(p.clone()),
                            None => None,
                        },
                        mark_type: MarkType::DynamicMark,
                        entry: NavigationEntry {
                            item: snapshot.item,
                            data: None,
                            timestamp: 0,
                            is_preview: false,
                        },
                    };
                    registry.set(text, mark);
                    CreateMarkOutcome::DynamicMarkSet
                },
                None => CreateMarkOutcome::MissingProjectPath,
            },
            None => CreateMarkOutcome::EditorGone,
        }
    } else {
        vim.marks.set(text, anchors);
        CreateMarkOutcome::NamedMarkSet
    }
}

/// Stores the bounds of the visual selection as the named marks `"<"` and
/// `">"`, and remembers the visual mode and per-selection direction so the
/// selection can be recreated.
pub fn create_visual_marks(
    vim: &mut VimState,
    mode: Mode,
    starts: Vec<u64>,
    ends: Vec<u64>,
    reversed: Vec<bool>,
)
    ensures
        final(vim).marks@ == old(vim).marks@.insert("<"@, starts).insert(">"@, ends),
        final(vim).stored_visual_mode == Some((mode, reversed)),
        final(vim).mode == old(vim).mode,
        final(vim).change_list == old(vim).change_list,
{
    vim.marks.set("<".to_owned(), starts);
    vim.marks.set(">".to_owned(), ends);
    vim.stored_visual_mode = Some((mode, reversed));
}

/// Records the visual selection's marks if the session is in a visual mode;
/// outside visual mode nothing changes. Run before an action that leaves
/// visual mode without the default selection behavior.
pub fn store_visual_marks(
    vim: &mut VimState,
    starts: Vec<u64>,
    ends: Vec<u64>,
    reversed: Vec<bool>,
)
    ensures
        final(vim).mode == old(vim).mode,
        final(vim).change_list == old(vim).change_list,
        if is_visual(old(vim).mode) {
            final(vim).marks@ == old(vim).marks@.insert("<"@, starts).insert(">"@, ends)
                && final(vim).stored_visual_mode == Some((old(vim).mode, reversed))
        } else {
            final(vim).marks@ == old(vim).marks@
                && final(vim).stored_visual_mode == old(vim).stored_visual_mode
        },
{
    let visual = match vim.mode {
        Mode::Visual | Mode::VisualLine | Mode::VisualBlock => true,
        Mode::Normal | Mode::Insert => false,
    };
    if visual {
        let mode = vim.mode;
        create_visual_marks(vim, mode, starts, ends, reversed);
    }
}

/// `s` is the single character `c`.
pub open spec fn is_single(s: Seq<char>, c: char) -> bool {
    s.len() == 1 && s[0] == c
}

/// Where a jump command finds its target.
pub enum JumpDecision {
    /// Digit key: run the navigation resolver against the global registry.
    NavigateGlobal,
    /// Paragraph motion: the editor computes the anchors (`forward` for the
    /// end-of-paragraph key).
    ParagraphAnchors { forward: bool },
    /// Anchors stored in the session: the change list's latest entry or a
    /// named mark.
    Anchors(Vec<u64>),
    /// No such mark and no stored anchors: the jump is a no-op.
    NoJump,
}

/// The anchor source a jump key denotes, over the key's characters.
pub open spec fn jump_source(s: Seq<char>) -> JumpDecision {
    if digit_keyed(s) {
        JumpDecision::NavigateGlobal
    } else if is_single(s, '{') {
        JumpDecision::ParagraphAnchors { forward: false }
    } else if is_single(s, '}') {
        JumpDecision::ParagraphAnchors { forward: true }
    } else {
        JumpDecision::NoJump
    }
}

/// Decides where a jump to the mark named `text` finds its target anchors.
///
/// Digit keys leave the session untouched and go to the global registry;
/// `"{"` and `"}"` ask the editor for paragraph anchors; `"."` takes the
/// change list's most recent entry; any other key reads the session's named
/// marks. A missing named mark or an empty change list is a silent no-op.
pub fn jump(vim: &VimState, text: &String) -> (r: JumpDecision)
    ensures
        match jump_source(text@) {
            JumpDecision::NavigateGlobal => r == JumpDecision::NavigateGlobal,
            JumpDecision::ParagraphAnchors { forward } => r == (JumpDecision::ParagraphAnchors {
                forward,
            }),
            _ => if is_single(text@, '.') {
                match r {
                    JumpDecision::Anchors(v) => vim.change_list@.len() > 0 && v@
                        == vim.change_list@.last()@,
                    JumpDecision::NoJump => vim.change_list@.len() == 0,
                    _ => false,
                }
            } else {
                match r {
                    JumpDecision::Anchors(v) => vim.marks@.contains_key(text@) && v@
                        == vim.marks@[text@]@,
                    JumpDecision::NoJump => !vim.marks@.contains_key(text@),
                    _ => false,
                }
            },
        },
{
    if crate::digits::starts_with_digit(text.as_str()) {
        return JumpDecision::NavigateGlobal;
    }
    let n = text.as_str().unicode_len();
    if n == 1 {
        let c = text.as_str().get_char(0);
        if c == '{' {
            return JumpDecision::ParagraphAnchors { forward: false };
        }
        if c == '}' {
            return JumpDecision::ParagraphAnchors { forward: true };
        }
        if c == '.' {
            let len = vim.change_list.len();
            if len == 0 {
                return JumpDecision::NoJump;
            }
            return JumpDecision::Anchors(copy_anchors(&vim.change_list[len - 1]));
        }
    }
    match vim.marks.get(text) {
        Some(anchors) => JumpDecision::Anchors(copy_anchors(anchors)),
        None => JumpDecision::NoJump,
    }
}

/// A plain copy of an anchor vector.
fn copy_anchors(v: &Vec<u64>) -> (r: Vec<u64>)
    ensures
        r@ == v@,
{
    let n = v.len();
    let mut r: Vec<u64> = Vec::new();
    let mut i: usize = 0;
    while i < n
        invariant
            n == v@.len(),
            i <= n,
            r@ == v@.subrange(0, i as int),
        decreases n - i,
    {
        r.push(v[i]);
        proof {
            assert(r@ =~= v@.subrange(0, i as int + 1));
        }
        i = i + 1;
    }
    proof {
        assert(r@ =~= v@);
    }
    r
}

/// `s` with runs of consecutive equal anchors collapsed to one.
pub open spec fn dedup_consecutive(s: Seq<u64>) -> Seq<u64>
    decreases s.len(),
{
    if s.len() <= 1 {
        s
    } else if s.last() == s[s.len() - 2] {
        dedup_consecutive(s.drop_last())
    } else {
        dedup_consecutive(s.drop_last()).push(s.last())
    }
}

/// How the editor should move once a jump's anchors are known (and, for a
/// line-wise jump, already adjusted to the first non-blank column).
pub enum JumpAction {
    /// An operator is pending: apply it through a motion to this anchor.
    Motion(u64),
    /// Select these anchors, one caret each, consecutive duplicates
    /// collapsed.
    Select(Vec<u64>),
    /// Nothing to do: no anchors were found.
    NoMovement,
}

/// Turns a jump's anchors into the editor action: with an operator pending,
/// a motion to the last anchor; otherwise a selection of all anchors with
/// consecutive duplicates collapsed.
pub fn jump_select_action(anchors: &Vec<u64>, has_active_operator: bool) -> (r: JumpAction)
    ensures
        if has_active_operator {
            if anchors@.len() > 0 {
                r == JumpAction::Motion(anchors@.last())
            } else {
                r == JumpAction::NoMovement
            }
        } else {
            match r {
                JumpAction::Select(v) => v@ == dedup_consecutive(anchors@),
                _ => false,
            }
        },
{
    if has_active_operator {
        let n = anchors.len();
        if n == 0 {
            return JumpAction::NoMovement;
        }
        return JumpAction::Motion(anchors[n - 1]);
    }
    let n = anchors.len();
    let mut out: Vec<u64> = Vec::new();
    let mut i: usize = 0;
    while i < n
        invariant
            n == anchors@.len(),
            i <= n,
            out@ == dedup_consecutive(anchors@.subrange(0, i as int)),
            i > 0 ==> out@.len() > 0 && out@.last() == anchors@[i as int - 1],
        decreases n - i,
    {
        let a = anchors[i];
        let push = if i == 0 {
            true
        } else {
            out[out.len() - 1] != a
        };
        proof {
            let sub = anchors@.subrange(0, i as int + 1);
            assert(sub.drop_last() =~= anchors@.subrange(0, i as int));
            assert(sub.last() == anchors@[i as int]);
            if i > 0 {
                assert(sub[sub.len() - 2] == anchors@[i as int - 1]);
            }
        }
        if push {
            out.push(a);
        }
        i = i + 1;
    }
    proof {
        assert(anchors@.subrange(0, n as int) =~= anchors@);
    }
    JumpAction::Select(out)
}

} // verus!
