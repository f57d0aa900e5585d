use simple_text_input::Key;
use simple_text_input::TextInputAction;
use simple_text_input::TextInputBinding;
use simple_text_input::TextInputNavigationBindings;
use simple_text_input::extend_held;
use simple_text_input::resolve_action;

#[test]
fn bare_arrow_resolves_to_char_motion() {
    let bindings = TextInputNavigationBindings::control_based();
    let held: Vec<Key> = Vec::new();
    assert_eq!(resolve_action(&bindings, Key::ArrowLeft, &held), Some(TextInputAction::CharLeft));
    assert_eq!(resolve_action(&bindings, Key::ArrowRight, &held), Some(TextInputAction::CharRight));
}

#[test]
fn control_arrow_resolves_to_word_motion() {
    let bindings = TextInputNavigationBindings::control_based();
    let held = vec![Key::ControlLeft];
    assert_eq!(resolve_action(&bindings, Key::ArrowLeft, &held), Some(TextInputAction::WordLeft));
    let held = vec![Key::ControlRight];
    assert_eq!(resolve_action(&bindings, Key::ArrowRight, &held), Some(TextInputAction::WordRight));
}

#[test]
fn home_end_backspace_delete_and_enter_resolve() {
    let bindings = TextInputNavigationBindings::control_based();
    let held: Vec<Key> = Vec::new();
    assert_eq!(resolve_action(&bindings, Key::Home, &held), Some(TextInputAction::LineStart));
    assert_eq!(resolve_action(&bindings, Key::End, &held), Some(TextInputAction::LineEnd));
    assert_eq!(resolve_action(&bindings, Key::Backspace, &held), Some(TextInputAction::DeletePrev));
    assert_eq!(
        resolve_action(&bindings, Key::NumpadBackspace, &held),
        Some(TextInputAction::DeletePrev)
    );
    assert_eq!(resolve_action(&bindings, Key::Delete, &held), Some(TextInputAction::DeleteNext));
    assert_eq!(resolve_action(&bindings, Key::Enter, &held), Some(TextInputAction::Submit));
    assert_eq!(resolve_action(&bindings, Key::NumpadEnter, &held), Some(TextInputAction::Submit));
}

#[test]
fn unbound_key_resolves_to_nothing() {
    let bindings = TextInputNavigationBindings::control_based();
    let held: Vec<Key> = Vec::new();
    assert_eq!(resolve_action(&bindings, Key::Other(123), &held), None);
}

#[test]
fn extra_held_modifiers_do_not_block_a_match() {
    let bindings = TextInputNavigationBindings::control_based();
    let held = vec![Key::ShiftLeft, Key::Other(9)];
    assert_eq!(resolve_action(&bindings, Key::ArrowLeft, &held), Some(TextInputAction::CharLeft));
}

#[test]
fn super_alt_table_uses_super_for_line_and_alt_for_word() {
    let bindings = TextInputNavigationBindings::super_alt_based();
    let held = vec![Key::SuperLeft];
    assert_eq!(resolve_action(&bindings, Key::ArrowLeft, &held), Some(TextInputAction::LineStart));
    assert_eq!(resolve_action(&bindings, Key::ArrowRight, &held), Some(TextInputAction::LineEnd));
    let held = vec![Key::AltRight];
    assert_eq!(resolve_action(&bindings, Key::ArrowLeft, &held), Some(TextInputAction::WordLeft));
    assert_eq!(resolve_action(&bindings, Key::ArrowRight, &held), Some(TextInputAction::WordRight));
    let held: Vec<Key> = Vec::new();
    assert_eq!(resolve_action(&bindings, Key::ArrowLeft, &held), Some(TextInputAction::CharLeft));
}

#[test]
fn first_matching_entry_wins() {
    let bindings = TextInputNavigationBindings(vec![
        (
            TextInputAction::WordLeft,
            TextInputBinding::new(Key::ArrowLeft, vec![Key::ControlLeft]),
        ),
        (TextInputAction::CharLeft, TextInputBinding::new(Key::ArrowLeft, Vec::new())),
    ]);
    let held = vec![Key::ControlLeft];
    assert_eq!(resolve_action(&bindings, Key::ArrowLeft, &held), Some(TextInputAction::WordLeft));
}

#[test]
fn an_earlier_general_entry_shadows_a_later_specific_one() {
    let bindings = TextInputNavigationBindings(vec![
        (TextInputAction::CharLeft, TextInputBinding::new(Key::ArrowLeft, Vec::new())),
        (
            TextInputAction::WordLeft,
            TextInputBinding::new(Key::ArrowLeft, vec![Key::ControlLeft]),
        ),
    ]);
    let held = vec![Key::ControlLeft];
    assert_eq!(resolve_action(&bindings, Key::ArrowLeft, &held), Some(TextInputAction::CharLeft));
}

#[test]
fn missing_required_modifier_skips_the_entry() {
    let bindings = TextInputNavigationBindings(vec![(
        TextInputAction::WordLeft,
        TextInputBinding::new(Key::ArrowLeft, vec![Key::ControlLeft]),
    )]);
    let held: Vec<Key> = Vec::new();
    assert_eq!(resolve_action(&bindings, Key::ArrowLeft, &held), None);
}

#[test]
fn default_table_is_the_control_based_one() {
    let bindings = TextInputNavigationBindings::default();
    let held = vec![Key::ControlLeft];
    assert_eq!(resolve_action(&bindings, Key::ArrowLeft, &held), Some(TextInputAction::WordLeft));
}

#[test]
fn either_shift_key_counts_as_the_extend_modifier() {
    assert!(extend_held(&vec![Key::ShiftLeft]));
    assert!(extend_held(&vec![Key::Other(1), Key::ShiftRight]));
    assert!(!extend_held(&vec![Key::ControlLeft]));
    assert!(!extend_held(&Vec::new()));
}
