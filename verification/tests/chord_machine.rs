use harpoon::chord::{
    chord_step, handle_chord_input, ActiveTabSnapshot, ChordEffect, ChordInput, ChordOutcome,
    HarpoonState,
};
use harpoon::marks::{GlobalMarks, Mark, MarkType, NavigationEntry, ProjectPath, WeakItemHandle};

fn dynamic_mark(path: &str, item: u64) -> Mark {
    Mark {
        project_path: ProjectPath { worktree_id: 1, path: String::from(path) },
        absolute_path: None,
        mark_type: MarkType::DynamicMark,
        entry: NavigationEntry {
            item: WeakItemHandle { item_id: item },
            data: None,
            timestamp: 0,
            is_preview: false,
        },
    }
}

fn snapshot(path: &str, item: u64) -> ActiveTabSnapshot {
    ActiveTabSnapshot {
        project_path: ProjectPath { worktree_id: 1, path: String::from(path) },
        absolute_path: None,
        item: WeakItemHandle { item_id: item },
    }
}

fn slot_path(registry: &GlobalMarks, slot: usize) -> Option<String> {
    let key = slot.to_string();
    registry.get(&key).map(|m| m.project_path.path.clone())
}

#[test]
fn command_keys_select_states_when_idle() {
    assert_eq!(
        chord_step(HarpoonState::Go(None), ChordInput::DeleteCommand),
        (HarpoonState::Delete(None), ChordEffect::NoEffect)
    );
    assert_eq!(
        chord_step(HarpoonState::Go(None), ChordInput::SwapCommand),
        (HarpoonState::Swap(None, None), ChordEffect::NoEffect)
    );
    // an add takes no operand and completes at once, from any state
    assert_eq!(
        chord_step(HarpoonState::Delete(None), ChordInput::AddCommand),
        (HarpoonState::Go(None), ChordEffect::AddActiveTab)
    );
}

#[test]
fn second_command_key_mid_chord_is_ignored() {
    assert_eq!(
        chord_step(HarpoonState::Swap(Some(3), None), ChordInput::DeleteCommand),
        (HarpoonState::Swap(Some(3), None), ChordEffect::NoEffect)
    );
    assert_eq!(
        chord_step(HarpoonState::Delete(None), ChordInput::SwapCommand),
        (HarpoonState::Delete(None), ChordEffect::NoEffect)
    );
    assert_eq!(
        chord_step(HarpoonState::Swap(None, None), ChordInput::DeleteCommand),
        (HarpoonState::Swap(None, None), ChordEffect::NoEffect)
    );
    assert_eq!(
        chord_step(HarpoonState::Go(Some(4)), ChordInput::SwapCommand),
        (HarpoonState::Go(Some(4)), ChordEffect::NoEffect)
    );
}

#[test]
fn delete_key_inside_swap_chord_does_not_hijack_it() {
    // Swap, "3", Delete (ignored), "5" completes Swap(3,5), deleting nothing
    let mut registry = GlobalMarks::new();
    registry.set(String::from("3"), dynamic_mark("three.rs", 3));
    registry.set(String::from("5"), dynamic_mark("five.rs", 5));
    let (state, _) = handle_chord_input(
        HarpoonState::Go(None),
        ChordInput::SwapCommand,
        &mut registry,
        None,
    );
    let (state, _) = handle_chord_input(state, ChordInput::Digit(3), &mut registry, None);
    let (state, outcome) =
        handle_chord_input(state, ChordInput::DeleteCommand, &mut registry, None);
    assert_eq!(state, HarpoonState::Swap(Some(3), None));
    assert_eq!(outcome, ChordOutcome::Quiet);
    let (state, outcome) = handle_chord_input(state, ChordInput::Digit(5), &mut registry, None);
    assert_eq!(state, HarpoonState::Go(None));
    assert_eq!(outcome, ChordOutcome::Swapped(3, 5));
    assert_eq!(slot_path(&registry, 3).as_deref(), Some("five.rs"));
    assert_eq!(slot_path(&registry, 5).as_deref(), Some("three.rs"));
}

#[test]
fn digit_fills_operands() {
    assert_eq!(
        chord_step(HarpoonState::Go(None), ChordInput::Digit(4)),
        (HarpoonState::Go(Some(4)), ChordEffect::NoEffect)
    );
    assert_eq!(
        chord_step(HarpoonState::Delete(None), ChordInput::Digit(2)),
        (HarpoonState::Go(None), ChordEffect::DeleteSlot(2))
    );
    assert_eq!(
        chord_step(HarpoonState::Swap(None, None), ChordInput::Digit(1)),
        (HarpoonState::Swap(Some(1), None), ChordEffect::HighlightSlot(1))
    );
    assert_eq!(
        chord_step(HarpoonState::Swap(Some(1), None), ChordInput::Digit(8)),
        (HarpoonState::Go(None), ChordEffect::SwapSlots(1, 8))
    );
}

#[test]
fn unexpected_digits_are_ignored() {
    assert_eq!(
        chord_step(HarpoonState::Go(Some(4)), ChordInput::Digit(5)),
        (HarpoonState::Go(Some(4)), ChordEffect::NoEffect)
    );
    assert_eq!(
        chord_step(HarpoonState::Add, ChordInput::Digit(5)),
        (HarpoonState::Add, ChordEffect::NoEffect)
    );
}

#[test]
fn dismiss_resets_state() {
    assert_eq!(
        chord_step(HarpoonState::Swap(Some(1), None), ChordInput::Dismiss),
        (HarpoonState::Go(None), ChordEffect::NoEffect)
    );
}

#[test]
fn add_takes_lowest_free_slot() {
    let mut registry = GlobalMarks::new();
    registry.set(String::from("0"), dynamic_mark("zero.rs", 1));
    registry.set(String::from("2"), dynamic_mark("two.rs", 2));
    let (state, outcome) = handle_chord_input(
        HarpoonState::Go(None),
        ChordInput::AddCommand,
        &mut registry,
        Some(snapshot("new.rs", 9)),
    );
    assert_eq!(state, HarpoonState::Go(None));
    assert_eq!(outcome, ChordOutcome::Added(1));
    assert_eq!(slot_path(&registry, 1).as_deref(), Some("new.rs"));
}

#[test]
fn add_without_active_tab_is_noop() {
    let mut registry = GlobalMarks::new();
    let (_, outcome) = handle_chord_input(
        HarpoonState::Go(None),
        ChordInput::AddCommand,
        &mut registry,
        None,
    );
    assert_eq!(outcome, ChordOutcome::NoActiveTab);
    assert!(registry.get_dynamic_marks().is_empty());
}

#[test]
fn add_at_capacity_is_rejected() {
    let mut registry = GlobalMarks::new();
    for slot in 0..9usize {
        registry.set(slot.to_string(), dynamic_mark(&format!("f{slot}.rs"), slot as u64));
    }
    assert_eq!(registry.get_dynamic_marks().len(), 9);
    let (state, outcome) = handle_chord_input(
        HarpoonState::Go(None),
        ChordInput::AddCommand,
        &mut registry,
        Some(snapshot("tenth.rs", 99)),
    );
    assert_eq!(state, HarpoonState::Go(None));
    assert_eq!(outcome, ChordOutcome::CapacityFull);
    // the count never grows past nine, and nothing was replaced
    assert_eq!(registry.get_dynamic_marks().len(), 9);
    for slot in 0..9usize {
        assert_eq!(slot_path(&registry, slot), Some(format!("f{slot}.rs")));
    }
}

#[test]
fn add_rejected_by_count_even_with_a_free_slot_key() {
    // nine dynamic marks at keys "1"-"9": key "0" is free, yet the bound is hit
    let mut registry = GlobalMarks::new();
    for slot in 1..10usize {
        registry.set(slot.to_string(), dynamic_mark(&format!("f{slot}.rs"), slot as u64));
    }
    assert_eq!(registry.get_dynamic_marks().len(), 9);
    let (_, outcome) = handle_chord_input(
        HarpoonState::Go(None),
        ChordInput::AddCommand,
        &mut registry,
        Some(snapshot("tenth.rs", 99)),
    );
    assert_eq!(outcome, ChordOutcome::CapacityFull);
    assert!(registry.get(&String::from("0")).is_none());
    assert_eq!(registry.get_dynamic_marks().len(), 9);
}

#[test]
fn add_counts_dynamic_marks_not_bound_keys() {
    // eight dynamic marks plus a static mark under key "8": the count is
    // eight, so the add proceeds, into the lowest slot free of dynamic marks
    let mut registry = GlobalMarks::new();
    for slot in 0..8usize {
        registry.set(slot.to_string(), dynamic_mark(&format!("f{slot}.rs"), slot as u64));
    }
    let mut static_mark = dynamic_mark("pinned.rs", 88);
    static_mark.mark_type = MarkType::StaticMark;
    registry.set(String::from("8"), static_mark);
    assert_eq!(registry.get_dynamic_marks().len(), 8);
    let (_, outcome) = handle_chord_input(
        HarpoonState::Go(None),
        ChordInput::AddCommand,
        &mut registry,
        Some(snapshot("ninth.rs", 99)),
    );
    assert_eq!(outcome, ChordOutcome::Added(8));
    assert_eq!(slot_path(&registry, 8).as_deref(), Some("ninth.rs"));
    assert_eq!(registry.get_dynamic_marks().len(), 9);
}

#[test]
fn delete_present_slot_removes_only_it() {
    let mut registry = GlobalMarks::new();
    registry.set(String::from("1"), dynamic_mark("a.rs", 1));
    registry.set(String::from("2"), dynamic_mark("b.rs", 2));
    let (state, outcome) = handle_chord_input(
        HarpoonState::Delete(None),
        ChordInput::Digit(1),
        &mut registry,
        None,
    );
    assert_eq!(state, HarpoonState::Go(None));
    assert_eq!(outcome, ChordOutcome::Deleted(1));
    assert!(registry.get(&String::from("1")).is_none());
    assert_eq!(slot_path(&registry, 2).as_deref(), Some("b.rs"));
}

#[test]
fn delete_absent_slot_is_noop() {
    let mut registry = GlobalMarks::new();
    registry.set(String::from("2"), dynamic_mark("b.rs", 2));
    let (_, outcome) = handle_chord_input(
        HarpoonState::Delete(None),
        ChordInput::Digit(7),
        &mut registry,
        None,
    );
    assert_eq!(outcome, ChordOutcome::Deleted(7));
    assert_eq!(registry.get_dynamic_marks().len(), 1);
    assert_eq!(slot_path(&registry, 2).as_deref(), Some("b.rs"));
}

fn run_swap(registry: &mut GlobalMarks, a: usize, b: usize) {
    let (state, _) = handle_chord_input(
        HarpoonState::Go(None),
        ChordInput::SwapCommand,
        registry,
        None,
    );
    let (state, outcome) = handle_chord_input(state, ChordInput::Digit(a), registry, None);
    assert_eq!(outcome, ChordOutcome::Highlight(a));
    let (state, outcome) = handle_chord_input(state, ChordInput::Digit(b), registry, None);
    assert_eq!(state, HarpoonState::Go(None));
    assert_eq!(outcome, ChordOutcome::Swapped(a, b));
}

#[test]
fn swap_exchanges_and_twice_restores() {
    let mut registry = GlobalMarks::new();
    registry.set(String::from("1"), dynamic_mark("a.rs", 1));
    registry.set(String::from("4"), dynamic_mark("b.rs", 4));
    run_swap(&mut registry, 1, 4);
    assert_eq!(slot_path(&registry, 1).as_deref(), Some("b.rs"));
    assert_eq!(slot_path(&registry, 4).as_deref(), Some("a.rs"));
    run_swap(&mut registry, 1, 4);
    assert_eq!(slot_path(&registry, 1).as_deref(), Some("a.rs"));
    assert_eq!(slot_path(&registry, 4).as_deref(), Some("b.rs"));
}

#[test]
fn swap_with_missing_operand_is_noop() {
    let mut registry = GlobalMarks::new();
    registry.set(String::from("1"), dynamic_mark("a.rs", 1));
    run_swap(&mut registry, 1, 6);
    assert_eq!(slot_path(&registry, 1).as_deref(), Some("a.rs"));
    assert!(registry.get(&String::from("6")).is_none());
    run_swap(&mut registry, 6, 1);
    assert_eq!(slot_path(&registry, 1).as_deref(), Some("a.rs"));
    assert!(registry.get(&String::from("6")).is_none());
}

#[test]
fn swap_exchanges_whatever_marks_the_keys_store() {
    // swap moves the marks stored at the keys, whatever their type
    let mut registry = GlobalMarks::new();
    registry.set(String::from("1"), dynamic_mark("a.rs", 1));
    let mut static_mark = dynamic_mark("pinned.rs", 2);
    static_mark.mark_type = MarkType::StaticMark;
    registry.set(String::from("2"), static_mark);
    run_swap(&mut registry, 1, 2);
    assert_eq!(slot_path(&registry, 1).as_deref(), Some("pinned.rs"));
    assert_eq!(slot_path(&registry, 2).as_deref(), Some("a.rs"));
    assert!(matches!(
        registry.get(&String::from("1")).unwrap().mark_type,
        MarkType::StaticMark
    ));
    assert!(matches!(
        registry.get(&String::from("2")).unwrap().mark_type,
        MarkType::DynamicMark
    ));
}

#[test]
fn swap_slot_with_itself_is_noop() {
    let mut registry = GlobalMarks::new();
    registry.set(String::from("3"), dynamic_mark("three.rs", 3));
    registry.set(String::from("5"), dynamic_mark("five.rs", 5));
    run_swap(&mut registry, 3, 3);
    assert_eq!(slot_path(&registry, 3).as_deref(), Some("three.rs"));
    assert_eq!(slot_path(&registry, 5).as_deref(), Some("five.rs"));
    assert_eq!(registry.get_dynamic_marks().len(), 2);
}
