//! The quick-switcher chord state machine.
//!
//! One chord is `{command key} [digit] [digit]`: the command key selects the
//! state, subsequent digits fill its operand slots, and a completed command
//! edits the nine dynamic-mark slots of the registry. The transition function
//! is total: every (state, input) pair is mapped, and pairs outside the table
//! leave the state unchanged and have no effect.

use crate::digits::{lemma_slot_key_injective, slot_key, slot_key_string};
use crate::marks::{
    dynamic_digit_entry, dynamic_slots, slot_taken, GlobalMarks, Mark, MarkType, NavigationEntry,
    ProjectPath, WeakItemHandle,
};
use vstd::prelude::*;

verus! {

/// The chord parser's state, one instance per open quick-switcher session.
/// A session starts in `Go(None)` and returns there after every completed
/// command.
#[derive(Clone, Copy, PartialEq, Eq, Debug)]
pub enum HarpoonState {
    Go(Option<usize>),
    Add,
    Delete(Option<usize>),
    Swap(Option<usize>, Option<usize>),
}

/// One keystroke, as the chord machine sees it.
#[derive(Clone, Copy, PartialEq, Eq, Debug)]
pub enum ChordInput {
    Digit(usize),
    AddCommand,
    DeleteCommand,
    SwapCommand,
    Dismiss,
}

/// What a transition asks the surrounding session to do.
#[derive(Clone, Copy, PartialEq, Eq, Debug)]
pub enum ChordEffect {
    NoEffect,
    /// Snapshot the active tab and store it in the lowest free slot.
    AddActiveTab,
    /// Clear slot `n` if it holds a dynamic mark.
    DeleteSlot(usize),
    /// Move the picker's highlighted row to slot `n` (first swap operand).
    HighlightSlot(usize),
    /// Exchange the marks of the two slots.
    SwapSlots(usize, usize),
}

/// Digits carried by a state are digits: at most `9`.
pub open spec fn state_wf(s: HarpoonState) -> bool {
    match s {
        HarpoonState::Go(d) => d is Some ==> d->0 <= 9,
        HarpoonState::Add => true,
        HarpoonState::Delete(d) => d is Some ==> d->0 <= 9,
        HarpoonState::Swap(a, b) => (a is Some ==> a->0 <= 9) && (b is Some ==> b->0 <= 9),
    }
}

/// Digit inputs carry a digit: at most `9`.
pub open spec fn input_wf(i: ChordInput) -> bool {
    match i {
        ChordInput::Digit(n) => n <= 9,
        _ => true,
    }
}

/// The total transition function: the state after one keystroke.
///
/// The machine reacts only to the transitions enumerated here; any other
/// keystroke changes nothing and has no effect. A Delete or Swap command key
/// opens its command from the idle state `Go(None)` only — pressed mid-chord
/// (an operand still open, or a digit already typed) it is ignored rather
/// than restarting a command. An Add command key takes no operand and
/// completes at once from any state: it is the one command the table
/// sanctions mid-chord. A digit fills the next open operand slot of the
/// current command; dismissal resets to `Go(None)`. States whose command
/// completes on a keystroke return to `Go(None)` at once.
pub open spec fn chord_next_state(s: HarpoonState, i: ChordInput) -> HarpoonState {
    match i {
        ChordInput::AddCommand => HarpoonState::Go(None),
        ChordInput::DeleteCommand => if s == HarpoonState::Go(None) {
            HarpoonState::Delete(None)
        } else {
            s
        },
        ChordInput::SwapCommand => if s == HarpoonState::Go(None) {
            HarpoonState::Swap(None, None)
        } else {
            s
        },
        ChordInput::Dismiss => HarpoonState::Go(None),
        ChordInput::Digit(n) => match s {
            HarpoonState::Go(None) => HarpoonState::Go(Some(n)),
            HarpoonState::Delete(None) => HarpoonState::Go(None),
            HarpoonState::Swap(None, None) => HarpoonState::Swap(Some(n), None),
            HarpoonState::Swap(Some(a), None) => HarpoonState::Go(None),
            _ => s,
        },
    }
}

/// The effect of one keystroke: what the completed (or advancing) command
/// asks for. Keystrokes outside the table have no effect.
pub open spec fn chord_effect(s: HarpoonState, i: ChordInput) -> ChordEffect {
    match i {
        ChordInput::AddCommand => ChordEffect::AddActiveTab,
        ChordInput::DeleteCommand => ChordEffect::NoEffect,
        ChordInput::SwapCommand => ChordEffect::NoEffect,
        ChordInput::Dismiss => ChordEffect::NoEffect,
        ChordInput::Digit(n) => match s {
            HarpoonState::Delete(None) => ChordEffect::DeleteSlot(n),
            HarpoonState::Swap(None, None) => ChordEffect::HighlightSlot(n),
            HarpoonState::Swap(Some(a), None) => ChordEffect::SwapSlots(a, n),
            _ => ChordEffect::NoEffect,
        },
    }
}

/// The state a quick-switcher session starts in, and returns to after every
/// completed command.
pub fn initial_chord_state() -> (r: HarpoonState)
    ensures
        r == HarpoonState::Go(None),
{
    HarpoonState::Go(None)
}

/// One keystroke of the chord machine, as a pure step.
pub fn chord_step(s: HarpoonState, i: ChordInput) -> (r: (HarpoonState, ChordEffect))
    ensures
        r.0 == chord_next_state(s, i),
        r.1 == chord_effect(s, i),
{
    match i {
        ChordInput::AddCommand => (HarpoonState::Go(None), ChordEffect::AddActiveTab),
        ChordInput::DeleteCommand => match s {
            HarpoonState::Go(None) => (HarpoonState::Delete(None), ChordEffect::NoEffect),
            _ => (s, ChordEffect::NoEffect),
        },
        ChordInput::SwapCommand => match s {
            HarpoonState::Go(None) => (HarpoonState::Swap(None, None), ChordEffect::NoEffect),
            _ => (s, ChordEffect::NoEffect),
        },
        ChordInput::Dismiss => (HarpoonState::Go(None), ChordEffect::NoEffect),
        ChordInput::Digit(n) => match s {
            HarpoonState::Go(None) => (HarpoonState::Go(Some(n)), ChordEffect::NoEffect),
            HarpoonState::Delete(None) => (HarpoonState::Go(None), ChordEffect::DeleteSlot(n)),
            HarpoonState::Swap(None, None) => (
                HarpoonState::Swap(Some(n), None),
                ChordEffect::HighlightSlot(n),
            ),
            HarpoonState::Swap(Some(a), None) => (
                HarpoonState::Go(None),
                ChordEffect::SwapSlots(a, n),
            ),
            _ => (s, ChordEffect::NoEffect),
        },
    }
}

/// A step on a well-formed state and input yields a well-formed state, and
/// the slot numbers of its effect are digits.
pub proof fn lemma_chord_step_preserves_wf(s: HarpoonState, i: ChordInput)
    requires
        state_wf(s),
        input_wf(i),
    ensures
        state_wf(chord_next_state(s, i)),
        match chord_effect(s, i) {
            ChordEffect::DeleteSlot(n) => n <= 9,
            ChordEffect::HighlightSlot(n) => n <= 9,
            ChordEffect::SwapSlots(a, b) => a <= 9 && b <= 9,
            _ => true,
        },
{
}

/// A keystroke that completes a command — an add, a delete with its target,
/// or a swap with both targets — returns the session to `Go(None)` at once.
pub proof fn lemma_completed_command_resets(s: HarpoonState, i: ChordInput)
    ensures
        match chord_effect(s, i) {
            ChordEffect::AddActiveTab => chord_next_state(s, i) == HarpoonState::Go(None),
            ChordEffect::DeleteSlot(_) => chord_next_state(s, i) == HarpoonState::Go(None),
            ChordEffect::SwapSlots(_, _) => chord_next_state(s, i) == HarpoonState::Go(None),
            _ => true,
        },
{
}

/// What the quick switcher reads off the active tab when a mark is added:
/// the tab's project path, its best-effort absolute path, and a weak handle
/// to its view.
pub struct ActiveTabSnapshot {
    pub project_path: ProjectPath,
    pub absolute_path: Option<String>,
    pub item: WeakItemHandle,
}

/// The mark an add command stores: dynamic, not a preview, with no
/// intra-document payload.
pub open spec fn new_dynamic_mark(tab: ActiveTabSnapshot) -> Mark {
    Mark {
        project_path: tab.project_path,
        absolute_path: tab.absolute_path,
        mark_type: MarkType::DynamicMark,
        entry: NavigationEntry { item: tab.item, data: None, timestamp: 0, is_preview: false },
    }
}

/// An add command was rejected: the registry already holds nine (or more)
/// dynamic marks.
#[derive(Clone, Copy, PartialEq, Eq, Structural, Debug)]
pub struct CapacityExceeded;

/// Stores the active tab as a new dynamic mark in the lowest free slot.
///
/// The request is rejected exactly when the registry already holds nine or
/// more dynamic marks — counted as the occupied slots that
/// `get_dynamic_marks` lists — and the registry then keeps exactly its
/// previous contents. Otherwise the mark is stored (an unconditional upsert)
/// under the lowest slot key `"0"`–`"8"` that holds no dynamic mark; with
/// fewer than nine dynamic marks such a key always exists.
pub fn add_dynamic_mark(registry: &mut GlobalMarks, tab: ActiveTabSnapshot) -> (r: Result<
    usize,
    CapacityExceeded,
>)
    ensures
        dynamic_slots(old(registry)@).finite(),
        match r {
            Ok(n) => dynamic_slots(old(registry)@).len() < 9 && n < 9 && !slot_taken(
                old(registry)@,
                n as int,
            ) && (forall|p: int| 0 <= p < n ==> slot_taken(old(registry)@, p)) && final(registry)@
                == old(registry)@.insert(slot_key(n as int), new_dynamic_mark(tab)),
            Err(_) => dynamic_slots(old(registry)@).len() >= 9 && final(registry)@ == old(
                registry,
            )@,
        },
{
    let rows = registry.get_dynamic_marks();
    if rows.len() >= 9 {
        return Err(CapacityExceeded);
    }
    let mut n: usize = 0;
    while n < 9
        invariant
            n <= 9,
            forall|p: int| 0 <= p < n ==> slot_taken(registry@, p),
            registry@ == old(registry)@,
            dynamic_slots(registry@).finite(),
            dynamic_slots(registry@).len() < 9,
        decreases 9 - n,
    {
        let key = slot_key_string(n);
        let taken = match registry.get(&key) {
            Some(mark) => match mark.mark_type {
                MarkType::DynamicMark => true,
                MarkType::StaticMark => false,
            },
            None => false,
        };
        if !taken {
            let mark = Mark {
                project_path: tab.project_path,
                absolute_path: tab.absolute_path,
                mark_type: MarkType::DynamicMark,
                entry: NavigationEntry {
                    item: tab.item,
                    data: None,
                    timestamp: 0,
                    is_preview: false,
                },
            };
            registry.set(key, mark);
            return Ok(n);
        }
        n = n + 1;
    }
    proof {
        // every slot holds a dynamic mark, so there are at least nine of
        // them — yet fewer than nine were counted above
        assert forall|p: int|
            vstd::set_lib::set_int_range(0, 9).contains(p) implies dynamic_slots(
            registry@,
        ).contains(p) by {
            assert(0 <= p < 9);
            assert(slot_taken(registry@, p));
            crate::digits::lemma_slot_key_val(p);
            assert(dynamic_digit_entry(registry@, slot_key(p), p));
        }
        assert(vstd::set_lib::set_int_range(0, 9).subset_of(dynamic_slots(registry@)));
        vstd::set_lib::lemma_int_range(0, 9);
        vstd::set_lib::lemma_len_subset(vstd::set_lib::set_int_range(0, 9), dynamic_slots(registry@));
        assert(false);
    }
    unreached()
}

/// A stored add occupies exactly its slot: the occupied slots afterwards are
/// the old ones plus `n`. The dynamic-mark count thus grows by exactly one,
/// unless slot `n` was already occupied through a non-canonical key spelling
/// of the same integer.
pub proof fn lemma_add_extends_slots(m: Map<Seq<char>, Mark>, n: int, mark: Mark)
    requires
        0 <= n < 9,
        mark.mark_type == MarkType::DynamicMark,
    ensures
        dynamic_slots(m.insert(slot_key(n), mark)) == dynamic_slots(m).insert(n),
{
    let m2 = m.insert(slot_key(n), mark);
    crate::digits::lemma_slot_key_val(n);
    assert(dynamic_digit_entry(m2, slot_key(n), n));
    assert forall|p: int| dynamic_slots(m2).contains(p) implies dynamic_slots(m).insert(
        n,
    ).contains(p) by {
        let k = choose|k: Seq<char>| #[trigger] dynamic_digit_entry(m2, k, p);
        if k == slot_key(n) {
            assert(p == n);
        } else {
            assert(dynamic_digit_entry(m, k, p));
        }
    }
    assert forall|p: int| dynamic_slots(m).insert(n).contains(p) implies dynamic_slots(
        m2,
    ).contains(p) by {
        if p != n {
            let k = choose|k: Seq<char>| #[trigger] dynamic_digit_entry(m, k, p);
            crate::digits::lemma_slot_key_val(n);
            assert(k != slot_key(n));
            assert(dynamic_digit_entry(m2, k, p));
        }
    }
    assert(dynamic_slots(m2) =~= dynamic_slots(m).insert(n));
}

/// The registry contents after a delete command on slot `n`: the slot's
/// binding is dropped when it holds a dynamic mark, and nothing changes
/// otherwise. No other key is touched either way.
pub open spec fn delete_slot_map(m: Map<Seq<char>, Mark>, n: int) -> Map<Seq<char>, Mark> {
    if slot_taken(m, n) {
        m.remove(slot_key(n))
    } else {
        m
    }
}

/// Deletes the dynamic mark of slot `n` if one is present; absent slots are
/// a no-op.
pub fn delete_dynamic_mark(registry: &mut GlobalMarks, n: usize)
    requires
        n <= 9,
    ensures
        final(registry)@ == delete_slot_map(old(registry)@, n as int),
{
    let key = slot_key_string(n);
    let present = match registry.get(&key) {
        Some(mark) => match mark.mark_type {
            MarkType::DynamicMark => true,
            MarkType::StaticMark => false,
        },
        None => false,
    };
    if present {
        registry.remove(&key);
    }
}

/// The registry contents after a swap command on slots `a` and `b`: the
/// marks stored under the two slot keys are exchanged when both keys exist
/// (whatever each mark's type), and nothing changes otherwise — a missing
/// operand never creates a one-sided state.
pub open spec fn swap_slots_map(m: Map<Seq<char>, Mark>, a: int, b: int) -> Map<Seq<char>, Mark> {
    if m.contains_key(slot_key(a)) && m.contains_key(slot_key(b)) {
        m.insert(slot_key(a), m[slot_key(b)]).insert(slot_key(b), m[slot_key(a)])
    } else {
        m
    }
}

/// Exchanges the marks stored at slots `a` and `b`; if either slot key is
/// unbound, both are left unchanged.
pub fn swap_dynamic_marks(registry: &mut GlobalMarks, a: usize, b: usize)
    requires
        a <= 9,
        b <= 9,
    ensures
        final(registry)@ == swap_slots_map(old(registry)@, a as int, b as int),
{
    let key_a = slot_key_string(a);
    let key_b = slot_key_string(b);
    let mark_a = match registry.get(&key_a) {
        Some(mark) => Some(mark.clone()),
        None => None,
    };
    let mark_b = match registry.get(&key_b) {
        Some(mark) => Some(mark.clone()),
        None => None,
    };
    match (mark_a, mark_b) {
        (Some(ma), Some(mb)) => {
            registry.set(key_a, mb);
            registry.set(key_b, ma);
        },
        _ => {
        },
    }
}

/// Swapping a pair of occupied slots twice restores the previous registry
/// contents; swapping with a missing operand changes nothing, twice nothing.
pub proof fn lemma_swap_involutive(m: Map<Seq<char>, Mark>, a: int, b: int)
    requires
        0 <= a <= 9,
        0 <= b <= 9,
    ensures
        swap_slots_map(swap_slots_map(m, a, b), a, b) == m,
{
    if m.contains_key(slot_key(a)) && m.contains_key(slot_key(b)) {
        let m2 = swap_slots_map(m, a, b);
        if a == b {
            assert(m2 =~= m);
            assert(swap_slots_map(m2, a, b) =~= m);
        } else {
            lemma_slot_key_injective(a, b);
            assert(m2[slot_key(a)] == m[slot_key(b)]);
            assert(m2[slot_key(b)] == m[slot_key(a)]);
            assert(m2.contains_key(slot_key(a)) && m2.contains_key(slot_key(b)));
            assert(swap_slots_map(m2, a, b) =~= m);
        }
    }
}

/// Swapping a slot with itself is a no-op: the registry keeps exactly its
/// previous contents, whether or not the slot is occupied.
pub proof fn lemma_swap_self_is_noop(m: Map<Seq<char>, Mark>, a: int)
    requires
        0 <= a <= 9,
    ensures
        swap_slots_map(m, a, a) == m,
{
    if m.contains_key(slot_key(a)) {
        assert(swap_slots_map(m, a, a) =~= m);
    }
}

/// A delete on slot `n` touches no other key: every other key keeps its
/// presence and its mark, and slot `n` itself is unbound afterwards when it
/// held a dynamic mark.
pub proof fn lemma_delete_removes_only_target(m: Map<Seq<char>, Mark>, n: int, k: Seq<char>)
    requires
        0 <= n <= 9,
        k != slot_key(n),
    ensures
        delete_slot_map(m, n).contains_key(k) == m.contains_key(k),
        m.contains_key(k) ==> delete_slot_map(m, n)[k] == m[k],
        slot_taken(m, n) ==> !delete_slot_map(m, n).contains_key(slot_key(n)),
{
}

/// The observable outcome of one keystroke, reported to the caller so it can
/// refresh the picker or surface feedback.
#[derive(Clone, Copy, PartialEq, Eq, Debug)]
pub enum ChordOutcome {
    /// Nothing to do.
    Quiet,
    /// A mark for the active tab was stored in this slot.
    Added(usize),
    /// The add command was rejected: nine dynamic marks already exist.
    CapacityFull,
    /// The add command had no active tab to snapshot.
    NoActiveTab,
    /// A delete command ran against this slot.
    Deleted(usize),
    /// A swap command ran against these two slots.
    Swapped(usize, usize),
    /// The picker's highlighted row should move to this slot.
    Highlight(usize),
}

/// Runs one keystroke to completion: advances the chord state and applies
/// the resulting effect to the registry.
///
/// `active_tab` is the session's snapshot of its pane's active tab, used
/// only by an add command; `None` means the pane has no tab whose project
/// path could be read, and the add is skipped.
pub fn handle_chord_input(
    state: HarpoonState,
    input: ChordInput,
    registry: &mut GlobalMarks,
    active_tab: Option<ActiveTabSnapshot>,
) -> (r: (HarpoonState, ChordOutcome))
    requires
        state_wf(state),
        input_wf(input),
    ensures
        r.0 == chord_next_state(state, input),
        state_wf(r.0),
        match chord_effect(state, input) {
            ChordEffect::NoEffect => final(registry)@ == old(registry)@ && r.1
                == ChordOutcome::Quiet,
            ChordEffect::AddActiveTab => match active_tab {
                None => final(registry)@ == old(registry)@ && r.1 == ChordOutcome::NoActiveTab,
                Some(tab) => match r.1 {
                    ChordOutcome::Added(n) => dynamic_slots(old(registry)@).finite()
                        && dynamic_slots(old(registry)@).len() < 9 && n < 9 && !slot_taken(
                        old(registry)@,
                        n as int,
                    ) && (forall|p: int| 0 <= p < n ==> slot_taken(old(registry)@, p)) && final(registry)@
                        == old(registry)@.insert(slot_key(n as int), new_dynamic_mark(tab)),
                    ChordOutcome::CapacityFull => dynamic_slots(old(registry)@).finite()
                        && dynamic_slots(old(registry)@).len() >= 9 && final(registry)@ == old(
                        registry,
                    )@,
                    _ => false,
                },
            },
            ChordEffect::DeleteSlot(n) => final(registry)@ == delete_slot_map(
                old(registry)@,
                n as int,
            ) && r.1 == ChordOutcome::Deleted(n),
            ChordEffect::HighlightSlot(n) => final(registry)@ == old(registry)@ && r.1
                == ChordOutcome::Highlight(n),
            ChordEffect::SwapSlots(a, b) => final(registry)@ == swap_slots_map(
                old(registry)@,
                a as int,
                b as int,
            ) && r.1 == ChordOutcome::Swapped(a, b),
        },
{
    proof {
        lemma_chord_step_preserves_wf(state, input);
    }
    let (next, effect) = chord_step(state, input);
    let outcome = match effect {
        ChordEffect::NoEffect => ChordOutcome::Quiet,
        ChordEffect::AddActiveTab => match active_tab {
            None => ChordOutcome::NoActiveTab,
            Some(tab) => match add_dynamic_mark(registry, tab) {
                Ok(n) => ChordOutcome::Added(n),
                Err(CapacityExceeded) => ChordOutcome::CapacityFull,
            },
        },
        ChordEffect::DeleteSlot(n) => {
            delete_dynamic_mark(registry, n);
            ChordOutcome::Deleted(n)
        },
        ChordEffect::HighlightSlot(n) => ChordOutcome::Highlight(n),
        ChordEffect::SwapSlots(a, b) => {
            swap_dynamic_marks(registry, a, b);
            ChordOutcome::Swapped(a, b)
        },
    };
    (next, outcome)
}

} // verus!
