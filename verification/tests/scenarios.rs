use simple_text_input::Key;
use simple_text_input::KeyInput;
use simple_text_input::TextInputBinding;
use simple_text_input::LogicalKey;
use simple_text_input::TextInputAction;
use simple_text_input::TextInputCursorPos;
use simple_text_input::TextInputCursorTimer;
use simple_text_input::TextInputInactive;
use simple_text_input::TextInputNavigationBindings;
use simple_text_input::TextInputSettings;
use simple_text_input::TextInputState;
use simple_text_input::TextInputValue;
use simple_text_input::process_events;

fn chars(s: &str) -> Vec<char> {
    s.chars().collect()
}

fn state_with(s: &str, cursor: usize) -> TextInputState {
    TextInputState {
        value: TextInputValue(chars(s)),
        cursor_pos: TextInputCursorPos(cursor),
        selection_anchor: None,
        undo_stack: Vec::new(),
        redo_stack: Vec::new(),
    }
}

fn press(key: Key) -> KeyInput {
    KeyInput { key, pressed: true, logical: LogicalKey::Other }
}

fn type_char(c: char) -> KeyInput {
    KeyInput { key: Key::Other(0), pressed: true, logical: LogicalKey::Character(vec![c]) }
}

fn settings_clearing() -> TextInputSettings {
    TextInputSettings { retain_on_submit: false, mask_character: None }
}

#[test]
fn left_left_then_backspace() {
    let mut state = state_with("hello", 5);
    let mut timer = TextInputCursorTimer::default();
    let settings = settings_clearing();
    let inactive = TextInputInactive(false);
    let bindings = TextInputNavigationBindings::control_based();
    let held: Vec<Key> = Vec::new();

    let out = process_events(
        &mut state,
        &mut timer,
        &settings,
        &inactive,
        &bindings,
        &held,
        &vec![press(Key::ArrowLeft), press(Key::ArrowLeft)],
        None,
        1,
    );
    assert_eq!(state.cursor_pos.0, 3);
    assert_eq!(state.value.0, chars("hello"));
    assert!(out.submit_event.is_none());

    let out = process_events(
        &mut state,
        &mut timer,
        &settings,
        &inactive,
        &bindings,
        &held,
        &vec![press(Key::Backspace)],
        None,
        1,
    );
    assert_eq!(state.value.0, chars("helo"));
    assert_eq!(state.cursor_pos.0, 2);
    assert!(out.submit_event.is_none());
    assert!(timer.should_reset);
}

#[test]
fn typing_abc_into_empty_buffer() {
    let mut state = TextInputState::default();
    let mut timer = TextInputCursorTimer::default();
    let settings = settings_clearing();
    let inactive = TextInputInactive(false);
    let bindings = TextInputNavigationBindings::control_based();
    let held: Vec<Key> = Vec::new();

    let out = process_events(
        &mut state,
        &mut timer,
        &settings,
        &inactive,
        &bindings,
        &held,
        &vec![type_char('a'), type_char('b'), type_char('c')],
        None,
        1,
    );
    assert_eq!(state.value.0, chars("abc"));
    assert_eq!(state.cursor_pos.0, 3);
    assert!(out.submit_event.is_none());
}

#[test]
fn word_right_from_buffer_start() {
    let mut state = state_with("abc def", 0);
    let settings = settings_clearing();
    state.apply_action(&settings, TextInputAction::WordRight, false, None);
    assert_eq!(state.cursor_pos.0, 4);
    assert_eq!(state.value.0, chars("abc def"));
}

#[test]
fn enter_submits_and_clears() {
    let mut state = state_with("x", 1);
    let mut timer = TextInputCursorTimer::default();
    let settings = settings_clearing();
    let inactive = TextInputInactive(false);
    let bindings = TextInputNavigationBindings::control_based();
    let held: Vec<Key> = Vec::new();

    let out = process_events(
        &mut state,
        &mut timer,
        &settings,
        &inactive,
        &bindings,
        &held,
        &vec![press(Key::Enter)],
        None,
        42,
    );
    let ev = out.submit_event.expect("submit event expected");
    assert_eq!(ev.value, chars("x"));
    assert_eq!(ev.entity, 42);
    assert_eq!(state.value.0, chars(""));
    assert_eq!(state.cursor_pos.0, 0);
    assert!(!timer.should_reset);
}

#[test]
fn select_all_then_delete_prev_empties_buffer() {
    let mut state = state_with("abcdef", 0);
    let settings = settings_clearing();
    state.apply_action(&settings, TextInputAction::SelectAll, false, None);
    assert_eq!(state.selection_anchor, Some(0));
    assert_eq!(state.cursor_pos.0, 6);
    state.apply_action(&settings, TextInputAction::DeletePrev, false, None);
    assert_eq!(state.value.0, chars(""));
    assert_eq!(state.cursor_pos.0, 0);
    assert_eq!(state.selection_anchor, None);
}

#[test]
fn inactive_model_ignores_events() {
    let mut state = state_with("keep", 4);
    let mut timer = TextInputCursorTimer::default();
    let settings = settings_clearing();
    let inactive = TextInputInactive(true);
    let bindings = TextInputNavigationBindings::control_based();
    let held: Vec<Key> = Vec::new();

    let out = process_events(
        &mut state,
        &mut timer,
        &settings,
        &inactive,
        &bindings,
        &held,
        &vec![press(Key::Backspace), type_char('z'), press(Key::Enter)],
        None,
        1,
    );
    assert_eq!(state.value.0, chars("keep"));
    assert_eq!(state.cursor_pos.0, 4);
    assert!(out.submit_event.is_none());
    assert!(out.clipboard_set.is_none());
    assert!(!timer.should_reset);
}

#[test]
fn releases_are_ignored() {
    let mut state = state_with("ab", 2);
    let mut timer = TextInputCursorTimer::default();
    let settings = settings_clearing();
    let inactive = TextInputInactive(false);
    let bindings = TextInputNavigationBindings::control_based();
    let held: Vec<Key> = Vec::new();

    let release = KeyInput { key: Key::Backspace, pressed: false, logical: LogicalKey::Other };
    process_events(
        &mut state,
        &mut timer,
        &settings,
        &inactive,
        &bindings,
        &held,
        &vec![release],
        None,
        1,
    );
    assert_eq!(state.value.0, chars("ab"));
    assert_eq!(state.cursor_pos.0, 2);
    assert!(!timer.should_reset);
}

#[test]
fn space_key_inserts_space() {
    let mut state = state_with("ab", 1);
    let mut timer = TextInputCursorTimer::default();
    let settings = settings_clearing();
    let inactive = TextInputInactive(false);
    let bindings = TextInputNavigationBindings::control_based();
    let held: Vec<Key> = Vec::new();

    let space = KeyInput { key: Key::Other(57), pressed: true, logical: LogicalKey::Space };
    process_events(
        &mut state,
        &mut timer,
        &settings,
        &inactive,
        &bindings,
        &held,
        &vec![space],
        None,
        1,
    );
    assert_eq!(state.value.0, chars("a b"));
    assert_eq!(state.cursor_pos.0, 2);
    assert!(timer.should_reset);
}

#[test]
fn shift_arrow_extends_selection_through_events() {
    let mut state = state_with("hello", 5);
    let mut timer = TextInputCursorTimer::default();
    let settings = settings_clearing();
    let inactive = TextInputInactive(false);
    let bindings = TextInputNavigationBindings::control_based();
    let held = vec![Key::ShiftLeft];

    process_events(
        &mut state,
        &mut timer,
        &settings,
        &inactive,
        &bindings,
        &held,
        &vec![press(Key::ArrowLeft), press(Key::ArrowLeft)],
        None,
        1,
    );
    assert_eq!(state.selection_anchor, Some(5));
    assert_eq!(state.cursor_pos.0, 3);
}

#[test]
fn cut_then_paste_threads_clipboard_within_one_batch() {
    let mut state = TextInputState {
        value: TextInputValue(chars("abc")),
        cursor_pos: TextInputCursorPos(3),
        selection_anchor: Some(0),
        undo_stack: Vec::new(),
        redo_stack: Vec::new(),
    };
    let mut timer = TextInputCursorTimer::default();
    let settings = settings_clearing();
    let inactive = TextInputInactive(false);
    let bindings = TextInputNavigationBindings(vec![
        (TextInputAction::Cut, TextInputBinding::new(Key::Other(1), Vec::new())),
        (TextInputAction::Paste, TextInputBinding::new(Key::Other(2), Vec::new())),
    ]);
    let held: Vec<Key> = Vec::new();

    let out = process_events(
        &mut state,
        &mut timer,
        &settings,
        &inactive,
        &bindings,
        &held,
        &vec![press(Key::Other(1)), press(Key::Other(2))],
        None,
        1,
    );
    assert_eq!(state.value.0, chars("abc"));
    assert_eq!(state.cursor_pos.0, 3);
    assert_eq!(out.clipboard_set, Some(chars("abc")));
}

#[test]
fn last_submit_of_a_batch_wins() {
    let mut state = state_with("a", 1);
    let mut timer = TextInputCursorTimer::default();
    let settings = TextInputSettings { retain_on_submit: true, mask_character: None };
    let inactive = TextInputInactive(false);
    let bindings = TextInputNavigationBindings::control_based();
    let held: Vec<Key> = Vec::new();

    let out = process_events(
        &mut state,
        &mut timer,
        &settings,
        &inactive,
        &bindings,
        &held,
        &vec![press(Key::Enter), type_char('b'), press(Key::NumpadEnter)],
        None,
        1,
    );
    let ev = out.submit_event.expect("submit event expected");
    assert_eq!(ev.value, chars("ab"));
    assert_eq!(state.value.0, chars("ab"));
}
