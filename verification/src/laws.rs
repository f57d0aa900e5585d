use vstd::prelude::*;

use crate::action::TextInputAction;
use crate::interpret::insert_at_cursor;
use crate::interpret::spec_apply;
use crate::render::spec_masked;
use crate::state::TextInputSettings;
use crate::state::TextInputStateView;

verus! {

/// Moving one codepoint right and then one left restores the cursor and
/// leaves the buffer as it was, whenever the cursor was not already at
/// the end of the buffer; when no selection was active the whole model is
/// restored.
pub proof fn lemma_char_right_then_left(
    s: TextInputStateView,
    settings: TextInputSettings,
    clipboard: Option<Seq<char>>,
)
    requires
        s.wf(),
        s.cursor < s.buffer.len(),
    ensures
        spec_apply(
            spec_apply(s, settings, TextInputAction::CharRight, false, clipboard).0,
            settings,
            TextInputAction::CharLeft,
            false,
            clipboard,
        ).0.cursor == s.cursor,
        spec_apply(
            spec_apply(s, settings, TextInputAction::CharRight, false, clipboard).0,
            settings,
            TextInputAction::CharLeft,
            false,
            clipboard,
        ).0.buffer == s.buffer,
        s.anchor is None ==> spec_apply(
            spec_apply(s, settings, TextInputAction::CharRight, false, clipboard).0,
            settings,
            TextInputAction::CharLeft,
            false,
            clipboard,
        ).0 == s,
{
}

/// Moving one codepoint left and then one right restores the cursor and
/// leaves the buffer as it was, whenever the cursor was not already at
/// the start of the buffer; when no selection was active the whole model
/// is restored.
pub proof fn lemma_char_left_then_right(
    s: TextInputStateView,
    settings: TextInputSettings,
    clipboard: Option<Seq<char>>,
)
    requires
        s.wf(),
        s.cursor > 0,
    ensures
        spec_apply(
            spec_apply(s, settings, TextInputAction::CharLeft, false, clipboard).0,
            settings,
            TextInputAction::CharRight,
            false,
            clipboard,
        ).0.cursor == s.cursor,
        spec_apply(
            spec_apply(s, settings, TextInputAction::CharLeft, false, clipboard).0,
            settings,
            TextInputAction::CharRight,
            false,
            clipboard,
        ).0.buffer == s.buffer,
        s.anchor is None ==> spec_apply(
            spec_apply(s, settings, TextInputAction::CharLeft, false, clipboard).0,
            settings,
            TextInputAction::CharRight,
            false,
            clipboard,
        ).0 == s,
{
}

/// Moving one codepoint right with the cursor already at the end of the
/// buffer leaves the cursor and buffer unchanged: the cursor is clamped.
/// When no selection was active nothing at all changes.
pub proof fn lemma_char_right_clamped(
    s: TextInputStateView,
    settings: TextInputSettings,
    clipboard: Option<Seq<char>>,
)
    requires
        s.wf(),
        s.cursor == s.buffer.len(),
    ensures
        spec_apply(s, settings, TextInputAction::CharRight, false, clipboard).0.cursor == s.cursor,
        spec_apply(s, settings, TextInputAction::CharRight, false, clipboard).0.buffer == s.buffer,
        s.anchor is None ==> spec_apply(
            s,
            settings,
            TextInputAction::CharRight,
            false,
            clipboard,
        ).0 == s,
{
}

/// Moving one codepoint left with the cursor already at the start of the
/// buffer leaves the cursor and buffer unchanged: the cursor is clamped.
/// When no selection was active nothing at all changes.
pub proof fn lemma_char_left_clamped(
    s: TextInputStateView,
    settings: TextInputSettings,
    clipboard: Option<Seq<char>>,
)
    requires
        s.wf(),
        s.cursor == 0,
    ensures
        spec_apply(s, settings, TextInputAction::CharLeft, false, clipboard).0.cursor == s.cursor,
        spec_apply(s, settings, TextInputAction::CharLeft, false, clipboard).0.buffer == s.buffer,
        s.anchor is None ==> spec_apply(s, settings, TextInputAction::CharLeft, false, clipboard).0
            == s,
{
}

/// Deleting backwards with the cursor at the start of the buffer, and no
/// selection active, is a no-op.
pub proof fn lemma_delete_prev_at_start(
    s: TextInputStateView,
    settings: TextInputSettings,
    clipboard: Option<Seq<char>>,
)
    requires
        s.wf(),
        s.anchor is None,
        s.cursor == 0,
    ensures
        spec_apply(s, settings, TextInputAction::DeletePrev, false, clipboard).0 == s,
{
}

/// Deleting forwards with the cursor at the end of the buffer, and no
/// selection active, is a no-op.
pub proof fn lemma_delete_next_at_end(
    s: TextInputStateView,
    settings: TextInputSettings,
    clipboard: Option<Seq<char>>,
)
    requires
        s.wf(),
        s.anchor is None,
        s.cursor == s.buffer.len(),
    ensures
        spec_apply(s, settings, TextInputAction::DeleteNext, false, clipboard).0 == s,
{
}

/// Inserting text at the cursor grows the buffer by the text's codepoint
/// count and moves the cursor to just past the inserted text.
pub proof fn lemma_insert_grows(s: TextInputStateView, text: Seq<char>)
    requires
        s.wf(),
    ensures
        insert_at_cursor(s, text).buffer.len() == s.buffer.len() + text.len(),
        insert_at_cursor(s, text).cursor == s.cursor + text.len(),
{
}

/// Submitting without retain-on-submit emits the buffer's prior content,
/// clears the buffer and puts the cursor at the start.
pub proof fn lemma_submit_clears(
    s: TextInputStateView,
    settings: TextInputSettings,
    clipboard: Option<Seq<char>>,
)
    requires
        s.wf(),
        !settings.retain_on_submit,
    ensures
        spec_apply(s, settings, TextInputAction::Submit, false, clipboard).0.buffer
            == Seq::<char>::empty(),
        spec_apply(s, settings, TextInputAction::Submit, false, clipboard).0.cursor == 0,
        spec_apply(s, settings, TextInputAction::Submit, false, clipboard).1.submitted == Some(
            s.buffer,
        ),
{
}

/// Submitting with retain-on-submit leaves buffer and cursor unchanged
/// and still emits the buffer's content.
pub proof fn lemma_submit_retains(
    s: TextInputStateView,
    settings: TextInputSettings,
    clipboard: Option<Seq<char>>,
)
    requires
        s.wf(),
        settings.retain_on_submit,
    ensures
        spec_apply(s, settings, TextInputAction::Submit, false, clipboard).0.buffer == s.buffer,
        spec_apply(s, settings, TextInputAction::Submit, false, clipboard).0.cursor == s.cursor,
        spec_apply(s, settings, TextInputAction::Submit, false, clipboard).1.submitted == Some(
            s.buffer,
        ),
{
}

/// The masked projection has exactly the buffer's length and shows
/// nothing but the mask codepoint, whatever the buffer holds.
pub proof fn lemma_masked_projection(s: Seq<char>, m: char)
    ensures
        spec_masked(s, Some(m)).len() == s.len(),
        forall|i: int| 0 <= i < s.len() ==> spec_masked(s, Some(m))[i] == m,
{
}

} // verus!
