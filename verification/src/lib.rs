//! A verified single-line text-input editing model.
//!
//! The model owns a text buffer (a sequence of Unicode codepoints), a cursor
//! position, and an optional selection anchor. Physical key presses are
//! resolved against an ordered binding table into semantic editing actions,
//! and an interpreter applies each action as a pure transformation of the
//! model, emitting a submitted value on the submit action.
//!
//! All position arithmetic is in codepoints, never bytes. Out-of-range
//! positions are clamped rather than reported as errors, so no operation of
//! the model fails or panics.

mod action;
mod binding;
mod events;
mod interpret;
mod key;
mod laws;
mod render;
mod state;
mod text;

pub use action::TextInputAction;
pub use binding::TextInputBinding;
pub use binding::TextInputNavigationBindings;
pub use binding::binding_matches;
pub use binding::bindings_view;
pub use binding::control_based_table;
pub use binding::resolve_action;
pub use binding::spec_resolve;
pub use binding::super_alt_based_table;
pub use events::BatchOutcome;
pub use events::BatchView;
pub use events::KeyInput;
pub use events::LogicalKey;
pub use events::TextInputCursorTimer;
pub use events::TextInputSubmitEvent;
pub use events::extend_held;
pub use events::extend_of;
pub use events::opt_chars_view;
pub use events::process_events;
pub use events::spec_event_step;
pub use events::spec_process;
pub use events::start_batch;
pub use events::submitted_view;
pub use interpret::ActionOutcome;
pub use interpret::ActionOutcomeView;
pub use interpret::apply_motion;
pub use interpret::clipboard_view;
pub use interpret::delete_selection;
pub use interpret::insert_at_cursor;
pub use interpret::is_motion;
pub use interpret::lemma_spec_apply_wf;
pub use interpret::motion_target;
pub use interpret::moved_to;
pub use interpret::quiet_outcome;
pub use interpret::snapshot_of;
pub use interpret::spec_apply;
pub use key::Key;
pub use laws::lemma_char_left_clamped;
pub use laws::lemma_char_left_then_right;
pub use laws::lemma_char_right_clamped;
pub use laws::lemma_char_right_then_left;
pub use laws::lemma_delete_next_at_end;
pub use laws::lemma_delete_prev_at_start;
pub use laws::lemma_insert_grows;
pub use laws::lemma_masked_projection;
pub use laws::lemma_submit_clears;
pub use laws::lemma_submit_retains;
pub use render::get_section_values;
pub use render::masked_value;
pub use render::placeholder_visible;
pub use render::reconciled_cursor_pos;
pub use render::spec_masked;
pub use state::EditSnapshot;
pub use state::SnapshotView;
pub use state::TextInputCursorPos;
pub use state::TextInputInactive;
pub use state::TextInputSettings;
pub use state::TextInputState;
pub use state::TextInputStateView;
pub use state::TextInputValue;
pub use text::byte_index_of;
pub use text::byte_pos;
pub use text::is_ascii_space;
pub use text::remove_char_at;
pub use text::spec_is_ascii_space;
pub use text::utf8_width;
pub use text::word_left_from;
pub use text::word_left_target;
pub use text::word_right_from;
pub use text::word_right_target;
