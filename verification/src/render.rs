use vstd::prelude::*;

use crate::state::TextInputInactive;
use crate::state::TextInputValue;
use crate::text::clone_chars;
use crate::text::copy_range;

verus! {

/// The externally visible projection of a buffer: the buffer itself
/// without a mask, and one mask codepoint per real codepoint with one.
/// The true content stays in the buffer alone; this projection is
/// computed fresh on every read and never stored.
pub open spec fn spec_masked(s: Seq<char>, mask: Option<char>) -> Seq<char> {
    match mask {
        None => s,
        Some(m) => Seq::new(s.len(), |i: int| m),
    }
}

/// The visible projection of `value` under the configured mask, as
/// [`spec_masked`] describes: the same length as the buffer, and nothing
/// but the mask codepoint when one is configured.
pub fn masked_value(value: &TextInputValue, mask: Option<char>) -> (r: Vec<char>)
    ensures
        r@ == spec_masked(value@, mask),
{
    match mask {
        None => clone_chars(&value.0),
        Some(m) => {
            let len = value.0.len();
            let mut out: Vec<char> = Vec::new();
            let mut i: usize = 0;
            while i < len
                invariant
                    i <= len,
                    out@.len() == i,
                    forall|k: int| 0 <= k < i ==> out@[k] == m,
                decreases len - i,
            {
                out.push(m);
                i += 1;
            }
            proof {
                assert(out@ =~= spec_masked(value@, Some(m)));
            }
            out
        },
    }
}

/// Splits the visible text into the three spans the renderer lays out:
/// what stands before the cursor, the cursor glyph, and what stands after
/// it. The cursor glyph is `}` when the cursor sits at the end of the
/// text and `|` between two codepoints; a renderer pairs those with a
/// font whose `|` glyph is zero-width. An out-of-range cursor is treated
/// as sitting at the end.
pub fn get_section_values(value: &Vec<char>, cursor_pos: usize) -> (r: (
    Vec<char>,
    Vec<char>,
    Vec<char>,
))
    ensures
        r.0@ == value@.take(vstd::math::min(cursor_pos as int, value@.len() as int)),
        r.1@ == (if cursor_pos >= value@.len() {
            seq!['}']
        } else {
            seq!['|']
        }),
        r.2@ == value@.skip(vstd::math::min(cursor_pos as int, value@.len() as int)),
{
    let len = value.len();
    let k = if cursor_pos < len {
        cursor_pos
    } else {
        len
    };
    let before = copy_range(value, 0, k);
    let after = copy_range(value, k, len);
    let mut cursor: Vec<char> = Vec::new();
    if cursor_pos >= len {
        cursor.push('}');
        proof {
            assert(cursor@ =~= seq!['}']);
        }
    } else {
        cursor.push('|');
        proof {
            assert(cursor@ =~= seq!['|']);
        }
    }
    (before, cursor, after)
}

/// Whether the placeholder text is shown: exactly when the buffer is
/// empty and the model is inactive. A pure derived value with no state of
/// its own.
pub fn placeholder_visible(value: &TextInputValue, inactive: &TextInputInactive) -> (r: bool)
    ensures
        r == (value@.len() == 0 && inactive.0),
{
    value.0.len() == 0 && inactive.0
}

/// The cursor position the renderer works with after the host notices a
/// change: a content change from outside the interpreter puts the cursor
/// at the end of the text, and any other cursor value is clamped into the
/// buffer's range.
pub fn reconciled_cursor_pos(
    value: &TextInputValue,
    cursor_pos: usize,
    value_changed: bool,
    cursor_changed: bool,
) -> (r: usize)
    ensures
        value_changed && !cursor_changed ==> r == value@.len(),
        !(value_changed && !cursor_changed) ==> r == vstd::math::min(
            cursor_pos as int,
            value@.len() as int,
        ),
{
    if value_changed && !cursor_changed {
        value.0.len()
    } else if cursor_pos < value.0.len() {
        cursor_pos
    } else {
        value.0.len()
    }
}

} // verus!
