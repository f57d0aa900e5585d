use vstd::prelude::*;

use crate::action::TextInputAction;
use crate::state::EditSnapshot;
use crate::state::SnapshotView;
use crate::state::TextInputSettings;
use crate::state::TextInputState;
use crate::state::TextInputStateView;
use crate::state::lemma_snaps_view_drop_last;
use crate::state::lemma_snaps_view_push;
use crate::text::clone_chars;
use crate::text::copy_range;
use crate::text::insert_chars_at;
use crate::text::lemma_word_left_target_bounds;
use crate::text::lemma_word_right_target_bounds;
use crate::text::remove_range;
use crate::text::word_left_from;
use crate::text::word_left_target;
use crate::text::word_right_from;
use crate::text::word_right_target;

verus! {

/// What applying one action hands back to the host.
#[derive(Debug, Clone)]
pub struct ActionOutcome {
    /// The buffer's content at the time of a submit action, to be passed
    /// on to the submission sink.
    pub submitted: Option<Vec<char>>,
    /// Text that the cut or copy action hands to the clipboard. A host
    /// without a clipboard drops it.
    pub clipboard_set: Option<Vec<char>>,
    /// True when the cursor-blink timer must restart in its visible phase:
    /// after every action but submit.
    pub timer_reset: bool,
    /// True when the action may have changed what the widget shows, so the
    /// host must recompute the rendered text and selection. In particular a
    /// deletion right of the cursor leaves the cursor's value unchanged and
    /// still sets this.
    pub cursor_change: bool,
}

/// The mathematical content of an [`ActionOutcome`].
pub struct ActionOutcomeView {
    /// The submitted text, at a submit action.
    pub submitted: Option<Seq<char>>,
    /// Text handed to the clipboard, at a cut or copy action.
    pub clipboard_set: Option<Seq<char>>,
    /// Whether the blink timer must restart.
    pub timer_reset: bool,
    /// Whether the host must recompute what the widget shows.
    pub cursor_change: bool,
}

impl View for ActionOutcome {
    type V = ActionOutcomeView;

    open spec fn view(&self) -> ActionOutcomeView {
        ActionOutcomeView {
            submitted: match self.submitted {
                Some(ref v) => Some(v@),
                None => None,
            },
            clipboard_set: match self.clipboard_set {
                Some(ref v) => Some(v@),
                None => None,
            },
            timer_reset: self.timer_reset,
            cursor_change: self.cursor_change,
        }
    }
}

/// The clipboard content as the interpreter's contracts see it: absent
/// when the host has no clipboard to offer.
pub open spec fn clipboard_view(clipboard: Option<&Vec<char>>) -> Option<Seq<char>> {
    match clipboard {
        Some(c) => Some(c@),
        None => None,
    }
}

/// Holds for the actions that only move the cursor.
pub open spec fn is_motion(action: TextInputAction) -> bool {
    match action {
        TextInputAction::CharLeft => true,
        TextInputAction::CharRight => true,
        TextInputAction::LineStart => true,
        TextInputAction::LineEnd => true,
        TextInputAction::LineUp => true,
        TextInputAction::LineDown => true,
        TextInputAction::WordLeft => true,
        TextInputAction::WordRight => true,
        _ => false,
    }
}

/// Where a motion action puts the cursor: one codepoint or one word over,
/// or an end of the buffer, always clamped into `[0, buffer.len()]`.
pub open spec fn motion_target(buffer: Seq<char>, cursor: int, action: TextInputAction) -> int
    recommends
        0 <= cursor <= buffer.len(),
        is_motion(action),
{
    match action {
        TextInputAction::CharLeft => if cursor > 0 {
            cursor - 1
        } else {
            0
        },
        TextInputAction::CharRight => if cursor < buffer.len() {
            cursor + 1
        } else {
            buffer.len() as int
        },
        TextInputAction::LineStart => 0,
        TextInputAction::LineUp => 0,
        TextInputAction::LineEnd => buffer.len() as int,
        TextInputAction::LineDown => buffer.len() as int,
        TextInputAction::WordLeft => word_left_target(buffer, cursor),
        TextInputAction::WordRight => word_right_target(buffer, cursor),
        _ => cursor,
    }
}

/// The snapshot that an edit pushes on the undo stack: the buffer and
/// cursor as they were before the edit.
pub open spec fn snapshot_of(s: TextInputStateView) -> SnapshotView {
    SnapshotView { buffer: s.buffer, cursor: s.cursor }
}

/// The state after the cursor moved to `target`. With the extend flag the
/// anchor stays where it was, or is planted at the pre-motion cursor;
/// without it the selection is cleared.
pub open spec fn moved_to(s: TextInputStateView, target: int, extend: bool) -> TextInputStateView {
    TextInputStateView {
        cursor: target,
        anchor: if extend {
            if s.anchor is Some {
                s.anchor
            } else {
                Some(s.cursor)
            }
        } else {
            None
        },
        ..s
    }
}

/// The state after a motion action.
pub open spec fn apply_motion(
    s: TextInputStateView,
    action: TextInputAction,
    extend: bool,
) -> TextInputStateView
    recommends
        s.wf(),
        is_motion(action),
{
    moved_to(s, motion_target(s.buffer, s.cursor, action), extend)
}

/// The state after the selected span is removed: the cursor lands on the
/// span's lower bound and the selection is cleared. When the span is not
/// empty, the old buffer and cursor go on the undo stack and the redo
/// stack is dropped.
pub open spec fn delete_selection(s: TextInputStateView) -> TextInputStateView
    recommends
        s.wf(),
        s.anchor is Some,
{
    let lo = s.sel_lo();
    let hi = s.sel_hi();
    TextInputStateView {
        buffer: s.buffer.take(lo) + s.buffer.skip(hi),
        cursor: lo,
        anchor: None,
        undo: if lo < hi {
            s.undo.push(snapshot_of(s))
        } else {
            s.undo
        },
        redo: if lo < hi {
            Seq::<SnapshotView>::empty()
        } else {
            s.redo
        },
    }
}

/// The state after `text` is inserted at the cursor: the buffer grows by
/// the text's codepoint count and the cursor moves past the inserted text.
/// A non-empty insertion goes on the undo stack and drops the redo stack.
pub open spec fn insert_at_cursor(s: TextInputStateView, text: Seq<char>) -> TextInputStateView
    recommends
        s.wf(),
{
    TextInputStateView {
        buffer: s.buffer.take(s.cursor) + text + s.buffer.skip(s.cursor),
        cursor: s.cursor + text.len(),
        anchor: None,
        undo: if text.len() > 0 {
            s.undo.push(snapshot_of(s))
        } else {
            s.undo
        },
        redo: if text.len() > 0 {
            Seq::<SnapshotView>::empty()
        } else {
            s.redo
        },
    }
}

/// An outcome that carries no submitted text and no clipboard text.
pub open spec fn quiet_outcome(timer_reset: bool, cursor_change: bool) -> ActionOutcomeView {
    ActionOutcomeView { submitted: None, clipboard_set: None, timer_reset, cursor_change }
}

/// The interpreter's transition function: the state and outcome that
/// applying `action` to `s` yields. Deletions act on the selected span
/// when one is active; every other out-of-range condition is a no-op, so
/// the function is total on well-formed states.
pub open spec fn spec_apply(
    s: TextInputStateView,
    settings: TextInputSettings,
    action: TextInputAction,
    extend: bool,
    clipboard: Option<Seq<char>>,
) -> (TextInputStateView, ActionOutcomeView)
    recommends
        s.wf(),
{
    if is_motion(action) {
        (apply_motion(s, action, extend), quiet_outcome(true, true))
    } else {
        match action {
            TextInputAction::DeletePrev => if s.anchor is Some {
                (delete_selection(s), quiet_outcome(true, true))
            } else if s.cursor > 0 {
                (
                    TextInputStateView {
                        buffer: s.buffer.remove(s.cursor - 1),
                        cursor: s.cursor - 1,
                        anchor: None,
                        undo: s.undo.push(snapshot_of(s)),
                        redo: Seq::<SnapshotView>::empty(),
                    },
                    quiet_outcome(true, true),
                )
            } else {
                (s, quiet_outcome(true, false))
            },
            TextInputAction::DeleteNext => if s.anchor is Some {
                (delete_selection(s), quiet_outcome(true, true))
            } else if s.cursor < s.buffer.len() {
                (
                    TextInputStateView {
                        buffer: s.buffer.remove(s.cursor),
                        anchor: None,
                        undo: s.undo.push(snapshot_of(s)),
                        redo: Seq::<SnapshotView>::empty(),
                        ..s
                    },
                    quiet_outcome(true, true),
                )
            } else {
                (s, quiet_outcome(true, false))
            },
            TextInputAction::Submit => {
                let out = ActionOutcomeView {
                    submitted: Some(s.buffer),
                    clipboard_set: None,
                    timer_reset: false,
                    cursor_change: !settings.retain_on_submit,
                };
                if settings.retain_on_submit {
                    (TextInputStateView { anchor: None, ..s }, out)
                } else {
                    (
                        TextInputStateView {
                            buffer: Seq::<char>::empty(),
                            cursor: 0,
                            anchor: None,
                            undo: if s.buffer.len() > 0 {
                                s.undo.push(snapshot_of(s))
                            } else {
                                s.undo
                            },
                            redo: if s.buffer.len() > 0 {
                                Seq::<SnapshotView>::empty()
                            } else {
                                s.redo
                            },
                        },
                        out,
                    )
                }
            },
            TextInputAction::SelectAll => (
                TextInputStateView { cursor: s.buffer.len() as int, anchor: Some(0), ..s },
                quiet_outcome(true, true),
            ),
            TextInputAction::Copy => if s.anchor is Some {
                (
                    TextInputStateView { anchor: None, ..s },
                    ActionOutcomeView {
                        submitted: None,
                        clipboard_set: Some(s.buffer.subrange(s.sel_lo(), s.sel_hi())),
                        timer_reset: true,
                        cursor_change: true,
                    },
                )
            } else {
                (s, quiet_outcome(true, false))
            },
            TextInputAction::Cut => if s.anchor is Some {
                (
                    delete_selection(s),
                    ActionOutcomeView {
                        submitted: None,
                        clipboard_set: Some(s.buffer.subrange(s.sel_lo(), s.sel_hi())),
                        timer_reset: true,
                        cursor_change: true,
                    },
                )
            } else {
                (s, quiet_outcome(true, false))
            },
            TextInputAction::Paste => match clipboard {
                Some(text) => (insert_at_cursor(s, text), quiet_outcome(true, true)),
                None => (s, quiet_outcome(true, false)),
            },
            TextInputAction::Undo => if s.undo.len() > 0 {
                (
                    TextInputStateView {
                        buffer: s.undo.last().buffer,
                        cursor: s.undo.last().cursor,
                        anchor: None,
                        undo: s.undo.drop_last(),
                        redo: s.redo.push(snapshot_of(s)),
                    },
                    quiet_outcome(true, true),
                )
            } else {
                (s, quiet_outcome(true, false))
            },
            TextInputAction::Redo => if s.redo.len() > 0 {
                (
                    TextInputStateView {
                        buffer: s.redo.last().buffer,
                        cursor: s.redo.last().cursor,
                        anchor: None,
                        undo: s.undo.push(snapshot_of(s)),
                        redo: s.redo.drop_last(),
                    },
                    quiet_outcome(true, true),
                )
            } else {
                (s, quiet_outcome(true, false))
            },
            _ => (s, quiet_outcome(true, false)),
        }
    }
}

/// The interpreter keeps the model well formed: cursor and anchor stay in
/// range and every snapshot on the stacks stays well formed.
pub proof fn lemma_spec_apply_wf(
    s: TextInputStateView,
    settings: TextInputSettings,
    action: TextInputAction,
    extend: bool,
    clipboard: Option<Seq<char>>,
)
    requires
        s.wf(),
    ensures
        spec_apply(s, settings, action, extend, clipboard).0.wf(),
{
    let s2 = spec_apply(s, settings, action, extend, clipboard).0;
    if is_motion(action) {
        match action {
            TextInputAction::WordLeft => {
                lemma_word_left_target_bounds(s.buffer, s.cursor);
            },
            TextInputAction::WordRight => {
                lemma_word_right_target_bounds(s.buffer, s.cursor);
            },
            _ => {},
        }
    } else {
        match action {
            TextInputAction::DeletePrev | TextInputAction::DeleteNext | TextInputAction::Cut => {
                if s.anchor is Some {
                    lemma_delete_selection_wf(s);
                }
            },
            TextInputAction::Paste => {
                if clipboard is Some {
                    lemma_insert_at_cursor_wf(s, clipboard->0);
                }
            },
            _ => {},
        }
    }
    assert forall|i: int| 0 <= i < s2.undo.len() implies (#[trigger] s2.undo[i]).wf() by {
        if i < s.undo.len() && s2.undo[i] == s.undo[i] {
        }
    }
    assert forall|i: int| 0 <= i < s2.redo.len() implies (#[trigger] s2.redo[i]).wf() by {
        if i < s.redo.len() && s2.redo[i] == s.redo[i] {
        }
    }
}

/// Removing the selected span leaves a well-formed state.
pub proof fn lemma_delete_selection_wf(s: TextInputStateView)
    requires
        s.wf(),
        s.anchor is Some,
    ensures
        delete_selection(s).wf(),
        delete_selection(s).buffer.len() == s.buffer.len() - (s.sel_hi() - s.sel_lo()),
{
}

/// Inserting at the cursor leaves a well-formed state.
pub proof fn lemma_insert_at_cursor_wf(s: TextInputStateView, text: Seq<char>)
    requires
        s.wf(),
    ensures
        insert_at_cursor(s, text).wf(),
        insert_at_cursor(s, text).buffer.len() == s.buffer.len() + text.len(),
{
}

impl TextInputState {
    /// Moves the cursor to `target`, keeping or planting the selection
    /// anchor under the extend flag and clearing it otherwise.
    fn motion_to(&mut self, target: usize, extend: bool)
        ensures
            final(self)@ == moved_to(old(self)@, target as int, extend),
    {
        if extend {
            if self.selection_anchor.is_none() {
                self.selection_anchor = Some(self.cursor_pos.0);
            }
        } else {
            self.selection_anchor = None;
        }
        self.cursor_pos.0 = target;
    }

    /// Removes the selected span, as [`delete_selection`] describes.
    fn remove_selection(&mut self)
        requires
            old(self).wf(),
            old(self).selection_anchor is Some,
        ensures
            final(self)@ == delete_selection(old(self)@),
    {
        let a = self.selection_anchor.unwrap();
        let pos = self.cursor_pos.0;
        let lo = if a < pos {
            a
        } else {
            pos
        };
        let hi = if a < pos {
            pos
        } else {
            a
        };
        if lo < hi {
            let snap_value = clone_chars(&self.value.0);
            self.undo_stack.push(EditSnapshot { value: snap_value, cursor: pos });
            self.redo_stack = Vec::new();
            proof {
                lemma_snaps_view_push(old(self).undo_stack@, self.undo_stack@.last());
                assert(crate::state::snaps_view(self.redo_stack@)
                    =~= Seq::<SnapshotView>::empty());
            }
            remove_range(&mut self.value.0, lo, hi);
        } else {
            proof {
                assert(old(self)@.buffer.take(lo as int) + old(self)@.buffer.skip(hi as int)
                    =~= old(self)@.buffer);
            }
        }
        self.cursor_pos.0 = lo;
        self.selection_anchor = None;
    }

    /// Inserts `text` at the cursor, as [`insert_at_cursor`] describes:
    /// the buffer grows by the text's codepoint count, the cursor moves to
    /// just past the inserted text, and the selection is cleared.
    pub fn insert_text(&mut self, text: &Vec<char>)
        requires
            old(self).wf(),
        ensures
            final(self)@ == insert_at_cursor(old(self)@, text@),
            final(self).wf(),
    {
        proof {
            lemma_insert_at_cursor_wf(old(self)@, text@);
        }
        let pos = self.cursor_pos.0;
        if text.len() > 0 {
            let snap_value = clone_chars(&self.value.0);
            self.undo_stack.push(EditSnapshot { value: snap_value, cursor: pos });
            self.redo_stack = Vec::new();
            proof {
                lemma_snaps_view_push(old(self).undo_stack@, self.undo_stack@.last());
                assert(crate::state::snaps_view(self.redo_stack@)
                    =~= Seq::<SnapshotView>::empty());
            }
            insert_chars_at(&mut self.value.0, pos, text);
            let new_len = self.value.0.len();
            proof {
                assert(pos + text@.len() <= new_len);
            }
            self.cursor_pos.0 = pos + text.len();
        } else {
            proof {
                assert(old(self)@.buffer.take(pos as int) + text@ + old(self)@.buffer.skip(
                    pos as int,
                ) =~= old(self)@.buffer);
            }
        }
        self.selection_anchor = None;
    }

    /// Applies one semantic action to the model, as [`spec_apply`]
    /// describes, and returns what the host must do with it: the submitted
    /// text on submit, clipboard text on cut or copy, and the blink and
    /// recompute flags. `extend` says whether the extend-selection
    /// modifier is held; `clipboard` is the clipboard's current content,
    /// absent when the host has none to offer.
    pub fn apply_action(
        &mut self,
        settings: &TextInputSettings,
        action: TextInputAction,
        extend: bool,
        clipboard: Option<&Vec<char>>,
    ) -> (r: ActionOutcome)
        requires
            old(self).wf(),
        ensures
            final(self)@ == spec_apply(
                old(self)@,
                *settings,
                action,
                extend,
                clipboard_view(clipboard),
            ).0,
            r@ == spec_apply(old(self)@, *settings, action, extend, clipboard_view(clipboard)).1,
            final(self).wf(),
    {
        proof {
            lemma_spec_apply_wf(old(self)@, *settings, action, extend, clipboard_view(clipboard));
        }
        match action {
            TextInputAction::CharLeft => {
                let pos = self.cursor_pos.0;
                let target = if pos > 0 {
                    pos - 1
                } else {
                    0
                };
                self.motion_to(target, extend);
                ActionOutcome { submitted: None, clipboard_set: None, timer_reset: true, cursor_change: true }
            },
            TextInputAction::CharRight => {
                let pos = self.cursor_pos.0;
                let len = self.value.0.len();
                let target = if pos < len {
                    pos + 1
                } else {
                    len
                };
                self.motion_to(target, extend);
                ActionOutcome { submitted: None, clipboard_set: None, timer_reset: true, cursor_change: true }
            },
            TextInputAction::LineStart | TextInputAction::LineUp => {
                self.motion_to(0, extend);
                ActionOutcome { submitted: None, clipboard_set: None, timer_reset: true, cursor_change: true }
            },
            TextInputAction::LineEnd | TextInputAction::LineDown => {
                let len = self.value.0.len();
                self.motion_to(len, extend);
                ActionOutcome { submitted: None, clipboard_set: None, timer_reset: true, cursor_change: true }
            },
            TextInputAction::WordLeft => {
                let target = word_left_from(&self.value.0, self.cursor_pos.0);
                self.motion_to(target, extend);
                ActionOutcome { submitted: None, clipboard_set: None, timer_reset: true, cursor_change: true }
            },
            TextInputAction::WordRight => {
                let target = word_right_from(&self.value.0, self.cursor_pos.0);
                self.motion_to(target, extend);
                ActionOutcome { submitted: None, clipboard_set: None, timer_reset: true, cursor_change: true }
            },
            TextInputAction::DeletePrev => {
                if self.selection_anchor.is_some() {
                    self.remove_selection();
                    ActionOutcome { submitted: None, clipboard_set: None, timer_reset: true, cursor_change: true }
                } else {
                    let pos = self.cursor_pos.0;
                    if pos > 0 {
                        let snap_value = clone_chars(&self.value.0);
                        self.undo_stack.push(EditSnapshot { value: snap_value, cursor: pos });
                        self.redo_stack = Vec::new();
                        proof {
                            lemma_snaps_view_push(old(self).undo_stack@, self.undo_stack@.last());
                            assert(crate::state::snaps_view(self.redo_stack@)
                                =~= Seq::<SnapshotView>::empty());
                        }
                        self.value.0.remove(pos - 1);
                        self.cursor_pos.0 = pos - 1;
                        ActionOutcome { submitted: None, clipboard_set: None, timer_reset: true, cursor_change: true }
                    } else {
                        ActionOutcome { submitted: None, clipboard_set: None, timer_reset: true, cursor_change: false }
                    }
                }
            },
            TextInputAction::DeleteNext => {
                if self.selection_anchor.is_some() {
                    self.remove_selection();
                    ActionOutcome { submitted: None, clipboard_set: None, timer_reset: true, cursor_change: true }
                } else {
                    let pos = self.cursor_pos.0;
                    if pos < self.value.0.len() {
                        let snap_value = clone_chars(&self.value.0);
                        self.undo_stack.push(EditSnapshot { value: snap_value, cursor: pos });
                        self.redo_stack = Vec::new();
                        proof {
                            lemma_snaps_view_push(old(self).undo_stack@, self.undo_stack@.last());
                            assert(crate::state::snaps_view(self.redo_stack@)
                                =~= Seq::<SnapshotView>::empty());
                        }
                        self.value.0.remove(pos);
                        ActionOutcome { submitted: None, clipboard_set: None, timer_reset: true, cursor_change: true }
                    } else {
                        ActionOutcome { submitted: None, clipboard_set: None, timer_reset: true, cursor_change: false }
                    }
                }
            },
            TextInputAction::Submit => {
                let submitted = clone_chars(&self.value.0);
                let cursor_change: bool;
                if settings.retain_on_submit {
                    cursor_change = false;
                } else {
                    if self.value.0.len() > 0 {
                        let snap_value = clone_chars(&self.value.0);
                        self.undo_stack.push(
                            EditSnapshot { value: snap_value, cursor: self.cursor_pos.0 },
                        );
                        self.redo_stack = Vec::new();
                        proof {
                            lemma_snaps_view_push(old(self).undo_stack@, self.undo_stack@.last());
                            assert(crate::state::snaps_view(self.redo_stack@)
                                =~= Seq::<SnapshotView>::empty());
                        }
                    }
                    self.value.0 = Vec::new();
                    proof {
                        assert(self.value@ =~= Seq::<char>::empty());
                    }
                    self.cursor_pos.0 = 0;
                    cursor_change = true;
                }
                self.selection_anchor = None;
                ActionOutcome {
                    submitted: Some(submitted),
                    clipboard_set: None,
                    timer_reset: false,
                    cursor_change,
                }
            },
            TextInputAction::SelectAll => {
                self.selection_anchor = Some(0);
                self.cursor_pos.0 = self.value.0.len();
                ActionOutcome { submitted: None, clipboard_set: None, timer_reset: true, cursor_change: true }
            },
            TextInputAction::Copy => {
                if self.selection_anchor.is_some() {
                    let a = self.selection_anchor.unwrap();
                    let pos = self.cursor_pos.0;
                    let lo = if a < pos {
                        a
                    } else {
                        pos
                    };
                    let hi = if a < pos {
                        pos
                    } else {
                        a
                    };
                    let sel = copy_range(&self.value.0, lo, hi);
                    self.selection_anchor = None;
                    ActionOutcome {
                        submitted: None,
                        clipboard_set: Some(sel),
                        timer_reset: true,
                        cursor_change: true,
                    }
                } else {
                    ActionOutcome { submitted: None, clipboard_set: None, timer_reset: true, cursor_change: false }
                }
            },
            TextInputAction::Cut => {
                if self.selection_anchor.is_some() {
                    let a = self.selection_anchor.unwrap();
                    let pos = self.cursor_pos.0;
                    let lo = if a < pos {
                        a
                    } else {
                        pos
                    };
                    let hi = if a < pos {
                        pos
                    } else {
                        a
                    };
                    let sel = copy_range(&self.value.0, lo, hi);
                    self.remove_selection();
                    ActionOutcome {
                        submitted: None,
                        clipboard_set: Some(sel),
                        timer_reset: true,
                        cursor_change: true,
                    }
                } else {
                    ActionOutcome { submitted: None, clipboard_set: None, timer_reset: true, cursor_change: false }
                }
            },
            TextInputAction::Paste => {
                match clipboard {
                    Some(text) => {
                        self.insert_text(text);
                        ActionOutcome { submitted: None, clipboard_set: None, timer_reset: true, cursor_change: true }
                    },
                    None => ActionOutcome { submitted: None, clipboard_set: None, timer_reset: true, cursor_change: false },
                }
            },
            TextInputAction::Undo => {
                proof {
                    if old(self).undo_stack@.len() > 0 {
                        lemma_snaps_view_drop_last(old(self).undo_stack@);
                    }
                }
                match self.undo_stack.pop() {
                    Some(snap) => {
                        let here = EditSnapshot {
                            value: clone_chars(&self.value.0),
                            cursor: self.cursor_pos.0,
                        };
                        self.redo_stack.push(here);
                        proof {
                            lemma_snaps_view_push(old(self).redo_stack@, self.redo_stack@.last());
                        }
                        self.value.0 = snap.value;
                        self.cursor_pos.0 = snap.cursor;
                        self.selection_anchor = None;
                        ActionOutcome { submitted: None, clipboard_set: None, timer_reset: true, cursor_change: true }
                    },
                    None => ActionOutcome { submitted: None, clipboard_set: None, timer_reset: true, cursor_change: false },
                }
            },
            TextInputAction::Redo => {
                proof {
                    if old(self).redo_stack@.len() > 0 {
                        lemma_snaps_view_drop_last(old(self).redo_stack@);
                    }
                }
                match self.redo_stack.pop() {
                    Some(snap) => {
                        let here = EditSnapshot {
                            value: clone_chars(&self.value.0),
                            cursor: self.cursor_pos.0,
                        };
                        self.undo_stack.push(here);
                        proof {
                            lemma_snaps_view_push(old(self).undo_stack@, self.undo_stack@.last());
                        }
                        self.value.0 = snap.value;
                        self.cursor_pos.0 = snap.cursor;
                        self.selection_anchor = None;
                        ActionOutcome { submitted: None, clipboard_set: None, timer_reset: true, cursor_change: true }
                    },
                    None => ActionOutcome { submitted: None, clipboard_set: None, timer_reset: true, cursor_change: false },
                }
            },
        }
    }
}

} // verus!
