use simple_text_input::TextInputAction;
use simple_text_input::TextInputCursorPos;
use simple_text_input::TextInputCursorTimer;
use simple_text_input::TextInputSettings;
use simple_text_input::TextInputState;
use simple_text_input::TextInputValue;

fn chars(s: &str) -> Vec<char> {
    s.chars().collect()
}

fn state_with(s: &str, cursor: usize) -> TextInputState {
    TextInputState {
        value: TextInputValue(chars(s)),
        cursor_pos: TextInputCursorPos(cursor),
        selection_anchor: None,
        undo_stack: Vec::new(),
        redo_stack: Vec::new(),
    }
}

fn plain() -> TextInputSettings {
    TextInputSettings { retain_on_submit: false, mask_character: None }
}

#[test]
fn char_right_then_left_restores_cursor() {
    let mut state = state_with("abc", 1);
    let settings = plain();
    state.apply_action(&settings, TextInputAction::CharRight, false, None);
    assert_eq!(state.cursor_pos.0, 2);
    state.apply_action(&settings, TextInputAction::CharLeft, false, None);
    assert_eq!(state.cursor_pos.0, 1);
    assert_eq!(state.value.0, chars("abc"));
}

#[test]
fn char_right_clamps_at_end() {
    let mut state = state_with("abc", 3);
    let settings = plain();
    state.apply_action(&settings, TextInputAction::CharRight, false, None);
    assert_eq!(state.cursor_pos.0, 3);
}

#[test]
fn char_left_clamps_at_start() {
    let mut state = state_with("abc", 0);
    let settings = plain();
    state.apply_action(&settings, TextInputAction::CharLeft, false, None);
    assert_eq!(state.cursor_pos.0, 0);
}

#[test]
fn delete_prev_at_start_is_a_no_op() {
    let mut state = state_with("abc", 0);
    let settings = plain();
    state.apply_action(&settings, TextInputAction::DeletePrev, false, None);
    assert_eq!(state.value.0, chars("abc"));
    assert_eq!(state.cursor_pos.0, 0);
    assert!(state.undo_stack.is_empty());
}

#[test]
fn delete_next_at_end_is_a_no_op() {
    let mut state = state_with("abc", 3);
    let settings = plain();
    state.apply_action(&settings, TextInputAction::DeleteNext, false, None);
    assert_eq!(state.value.0, chars("abc"));
    assert_eq!(state.cursor_pos.0, 3);
    assert!(state.undo_stack.is_empty());
}

#[test]
fn delete_next_removes_under_cursor_without_moving_it() {
    let mut state = state_with("abc", 1);
    let settings = plain();
    let out = state.apply_action(&settings, TextInputAction::DeleteNext, false, None);
    assert_eq!(state.value.0, chars("ac"));
    assert_eq!(state.cursor_pos.0, 1);
    assert!(out.cursor_change);
}

#[test]
fn insert_grows_length_and_moves_cursor_by_codepoint_count() {
    let mut state = state_with("ab", 1);
    state.insert_text(&chars("xyz"));
    assert_eq!(state.value.0, chars("axyzb"));
    assert_eq!(state.cursor_pos.0, 4);
}

#[test]
fn insert_counts_codepoints_not_bytes() {
    let mut state = state_with("", 0);
    state.insert_text(&chars("déjà"));
    assert_eq!(state.value.0.len(), 4);
    assert_eq!(state.cursor_pos.0, 4);
}

#[test]
fn submit_without_retain_clears_and_emits() {
    let mut state = state_with("hi", 2);
    let settings = plain();
    let out = state.apply_action(&settings, TextInputAction::Submit, false, None);
    assert_eq!(out.submitted, Some(chars("hi")));
    assert_eq!(state.value.0, chars(""));
    assert_eq!(state.cursor_pos.0, 0);
    assert!(!out.timer_reset);
}

#[test]
fn submit_with_retain_keeps_buffer_and_still_emits() {
    let mut state = state_with("hi", 1);
    let settings = TextInputSettings { retain_on_submit: true, mask_character: None };
    let out = state.apply_action(&settings, TextInputAction::Submit, false, None);
    assert_eq!(out.submitted, Some(chars("hi")));
    assert_eq!(state.value.0, chars("hi"));
    assert_eq!(state.cursor_pos.0, 1);
}

#[test]
fn line_start_and_end_reach_buffer_ends() {
    let mut state = state_with("abc", 1);
    let settings = plain();
    state.apply_action(&settings, TextInputAction::LineEnd, false, None);
    assert_eq!(state.cursor_pos.0, 3);
    state.apply_action(&settings, TextInputAction::LineStart, false, None);
    assert_eq!(state.cursor_pos.0, 0);
}

#[test]
fn line_up_and_down_clamp_in_single_line_model() {
    let mut state = state_with("abc", 1);
    let settings = plain();
    state.apply_action(&settings, TextInputAction::LineDown, false, None);
    assert_eq!(state.cursor_pos.0, 3);
    state.apply_action(&settings, TextInputAction::LineUp, false, None);
    assert_eq!(state.cursor_pos.0, 0);
}

#[test]
fn extend_motion_plants_anchor_once() {
    let mut state = state_with("abcd", 2);
    let settings = plain();
    state.apply_action(&settings, TextInputAction::CharLeft, true, None);
    assert_eq!(state.selection_anchor, Some(2));
    assert_eq!(state.cursor_pos.0, 1);
    state.apply_action(&settings, TextInputAction::CharLeft, true, None);
    assert_eq!(state.selection_anchor, Some(2));
    assert_eq!(state.cursor_pos.0, 0);
}

#[test]
fn plain_motion_clears_anchor() {
    let mut state = state_with("abcd", 2);
    let settings = plain();
    state.apply_action(&settings, TextInputAction::CharLeft, true, None);
    assert_eq!(state.selection_anchor, Some(2));
    state.apply_action(&settings, TextInputAction::CharRight, false, None);
    assert_eq!(state.selection_anchor, None);
}

#[test]
fn delete_prev_with_selection_removes_the_span() {
    let mut state = state_with("abcdef", 1);
    state.selection_anchor = Some(4);
    let settings = plain();
    state.apply_action(&settings, TextInputAction::DeletePrev, false, None);
    assert_eq!(state.value.0, chars("aef"));
    assert_eq!(state.cursor_pos.0, 1);
    assert_eq!(state.selection_anchor, None);
}

#[test]
fn copy_hands_selection_to_clipboard_and_keeps_buffer() {
    let mut state = state_with("abcdef", 5);
    state.selection_anchor = Some(2);
    let settings = plain();
    let out = state.apply_action(&settings, TextInputAction::Copy, false, None);
    assert_eq!(out.clipboard_set, Some(chars("cde")));
    assert_eq!(state.value.0, chars("abcdef"));
    assert_eq!(state.cursor_pos.0, 5);
}

#[test]
fn copy_without_selection_does_nothing() {
    let mut state = state_with("abc", 1);
    let settings = plain();
    let out = state.apply_action(&settings, TextInputAction::Copy, false, None);
    assert_eq!(out.clipboard_set, None);
}

#[test]
fn cut_removes_selection_and_hands_it_out() {
    let mut state = state_with("abcdef", 2);
    state.selection_anchor = Some(5);
    let settings = plain();
    let out = state.apply_action(&settings, TextInputAction::Cut, false, None);
    assert_eq!(out.clipboard_set, Some(chars("cde")));
    assert_eq!(state.value.0, chars("abf"));
    assert_eq!(state.cursor_pos.0, 2);
}

#[test]
fn paste_inserts_clipboard_content() {
    let mut state = state_with("ad", 1);
    let settings = plain();
    let clip = chars("bc");
    state.apply_action(&settings, TextInputAction::Paste, false, Some(&clip));
    assert_eq!(state.value.0, chars("abcd"));
    assert_eq!(state.cursor_pos.0, 3);
}

#[test]
fn paste_without_clipboard_is_a_no_op() {
    let mut state = state_with("ad", 1);
    let settings = plain();
    state.apply_action(&settings, TextInputAction::Paste, false, None);
    assert_eq!(state.value.0, chars("ad"));
    assert_eq!(state.cursor_pos.0, 1);
}

#[test]
fn undo_restores_buffer_and_cursor() {
    let mut state = state_with("ab", 2);
    let settings = plain();
    state.insert_text(&chars("c"));
    assert_eq!(state.value.0, chars("abc"));
    state.apply_action(&settings, TextInputAction::Undo, false, None);
    assert_eq!(state.value.0, chars("ab"));
    assert_eq!(state.cursor_pos.0, 2);
}

#[test]
fn redo_reapplies_the_undone_edit() {
    let mut state = state_with("ab", 2);
    let settings = plain();
    state.insert_text(&chars("c"));
    state.apply_action(&settings, TextInputAction::Undo, false, None);
    state.apply_action(&settings, TextInputAction::Redo, false, None);
    assert_eq!(state.value.0, chars("abc"));
    assert_eq!(state.cursor_pos.0, 3);
}

#[test]
fn undo_on_empty_history_is_a_no_op() {
    let mut state = state_with("ab", 1);
    let settings = plain();
    state.apply_action(&settings, TextInputAction::Undo, false, None);
    assert_eq!(state.value.0, chars("ab"));
    assert_eq!(state.cursor_pos.0, 1);
    state.apply_action(&settings, TextInputAction::Redo, false, None);
    assert_eq!(state.value.0, chars("ab"));
}

#[test]
fn a_new_edit_drops_the_redo_stack() {
    let mut state = state_with("ab", 2);
    let settings = plain();
    state.insert_text(&chars("c"));
    state.apply_action(&settings, TextInputAction::Undo, false, None);
    state.insert_text(&chars("z"));
    assert_eq!(state.value.0, chars("abz"));
    state.apply_action(&settings, TextInputAction::Redo, false, None);
    assert_eq!(state.value.0, chars("abz"));
}

#[test]
fn new_state_puts_cursor_at_end() {
    let state = TextInputState::new(chars("abc"));
    assert_eq!(state.cursor_pos.0, 3);
    assert_eq!(state.selection_anchor, None);
}

#[test]
fn set_value_resets_cursor_to_end_of_text() {
    let mut state = state_with("ab", 1);
    state.set_value(chars("wxyz"));
    assert_eq!(state.value.0, chars("wxyz"));
    assert_eq!(state.cursor_pos.0, 4);
    assert_eq!(state.selection_anchor, None);
}

#[test]
fn default_state_is_empty() {
    let state = TextInputState::default();
    assert_eq!(state.value.0, chars(""));
    assert_eq!(state.cursor_pos.0, 0);
}

#[test]
fn blink_step_toggles_on_timer_and_resets_on_edit() {
    let mut timer = TextInputCursorTimer::default();
    assert_eq!(timer.blink_step(false, true, true), (false, false));
    assert_eq!(timer.blink_step(false, false, false), (false, false));
    timer.should_reset = true;
    assert_eq!(timer.blink_step(false, true, false), (true, true));
    assert!(!timer.should_reset);
    timer.should_reset = true;
    assert_eq!(timer.blink_step(true, true, false), (false, false));
    assert!(timer.should_reset);
}

#[test]
fn settings_default_clears_on_submit_and_has_no_mask() {
    let settings = TextInputSettings::default();
    assert!(!settings.retain_on_submit);
    assert!(settings.mask_character.is_none());
}
