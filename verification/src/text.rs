use vstd::prelude::*;

verus! {

/// Holds exactly when `c` is an ASCII whitespace codepoint: space, tab,
/// line feed, form feed or carriage return. Word motion scans for these.
pub open spec fn spec_is_ascii_space(c: char) -> bool {
    c == ' ' || c == '\t' || c == '\n' || c == '\u{0c}' || c == '\r'
}

/// Reports whether `c` is an ASCII whitespace codepoint.
pub fn is_ascii_space(c: char) -> (r: bool)
    ensures
        r == spec_is_ascii_space(c),
{
    c == ' ' || c == '\t' || c == '\n' || c == '\u{0c}' || c == '\r'
}

/// The least index at or after `i` holding ASCII whitespace, or the length
/// of `s` when there is none.
pub open spec fn next_space(s: Seq<char>, i: int) -> int
    decreases s.len() - i,
    when 0 <= i <= s.len()
{
    if i >= s.len() {
        s.len() as int
    } else if spec_is_ascii_space(s[i]) {
        i
    } else {
        next_space(s, i + 1)
    }
}

/// The least index at or after `i` holding a codepoint that is not ASCII
/// whitespace, or the length of `s` when there is none.
pub open spec fn next_non_space(s: Seq<char>, i: int) -> int
    decreases s.len() - i,
    when 0 <= i <= s.len()
{
    if i >= s.len() {
        s.len() as int
    } else if !spec_is_ascii_space(s[i]) {
        i
    } else {
        next_non_space(s, i + 1)
    }
}

/// The greatest index at or before `i` holding a codepoint that is not
/// ASCII whitespace, or `-1` when there is none.
pub open spec fn prev_non_space(s: Seq<char>, i: int) -> int
    decreases i + 1,
    when -1 <= i < s.len()
{
    if i < 0 {
        -1
    } else if !spec_is_ascii_space(s[i]) {
        i
    } else {
        prev_non_space(s, i - 1)
    }
}

/// The greatest index at or before `i` holding ASCII whitespace, or `-1`
/// when there is none.
pub open spec fn prev_space(s: Seq<char>, i: int) -> int
    decreases i + 1,
    when -1 <= i < s.len()
{
    if i < 0 {
        -1
    } else if spec_is_ascii_space(s[i]) {
        i
    } else {
        prev_space(s, i - 1)
    }
}

/// Where the cursor lands when it moves one word to the right from `pos`:
/// past the rest of the current whitespace-delimited word, then past the
/// whitespace run after it, clamped to the end of the buffer.
pub open spec fn word_right_target(s: Seq<char>, pos: int) -> int
    recommends
        0 <= pos <= s.len(),
{
    next_non_space(s, next_space(s, pos))
}

/// Where the cursor lands when it moves one word to the left from `pos`:
/// past the whitespace run immediately left of the cursor, then to the
/// start of the whitespace-delimited word before it, clamped to the start
/// of the buffer.
pub open spec fn word_left_target(s: Seq<char>, pos: int) -> int
    recommends
        0 <= pos <= s.len(),
{
    prev_space(s, prev_non_space(s, pos - 1)) + 1
}

pub proof fn lemma_next_space_bounds(s: Seq<char>, i: int)
    requires
        0 <= i <= s.len(),
    ensures
        i <= next_space(s, i) <= s.len(),
    decreases s.len() - i,
{
    if i < s.len() && !spec_is_ascii_space(s[i]) {
        lemma_next_space_bounds(s, i + 1);
    }
}

pub proof fn lemma_next_non_space_bounds(s: Seq<char>, i: int)
    requires
        0 <= i <= s.len(),
    ensures
        i <= next_non_space(s, i) <= s.len(),
    decreases s.len() - i,
{
    if i < s.len() && spec_is_ascii_space(s[i]) {
        lemma_next_non_space_bounds(s, i + 1);
    }
}

pub proof fn lemma_prev_non_space_bounds(s: Seq<char>, i: int)
    requires
        -1 <= i < s.len(),
    ensures
        -1 <= prev_non_space(s, i) <= i,
    decreases i + 1,
{
    if i >= 0 && spec_is_ascii_space(s[i]) {
        lemma_prev_non_space_bounds(s, i - 1);
    }
}

pub proof fn lemma_prev_space_bounds(s: Seq<char>, i: int)
    requires
        -1 <= i < s.len(),
    ensures
        -1 <= prev_space(s, i) <= i,
    decreases i + 1,
{
    if i >= 0 && !spec_is_ascii_space(s[i]) {
        lemma_prev_space_bounds(s, i - 1);
    }
}

/// The word-right target always lies between `pos` and the end of `s`.
pub proof fn lemma_word_right_target_bounds(s: Seq<char>, pos: int)
    requires
        0 <= pos <= s.len(),
    ensures
        pos <= word_right_target(s, pos) <= s.len(),
{
    lemma_next_space_bounds(s, pos);
    lemma_next_non_space_bounds(s, next_space(s, pos));
}

/// The word-left target always lies between the start of `s` and `pos`.
pub proof fn lemma_word_left_target_bounds(s: Seq<char>, pos: int)
    requires
        0 <= pos <= s.len(),
    ensures
        0 <= word_left_target(s, pos) <= pos,
{
    lemma_prev_non_space_bounds(s, pos - 1);
    lemma_prev_space_bounds(s, prev_non_space(s, pos - 1));
}

/// Moves the cursor one word to the right of `pos`, to
/// [`word_right_target`].
pub fn word_right_from(chars: &Vec<char>, pos: usize) -> (r: usize)
    requires
        pos <= chars@.len(),
    ensures
        r == word_right_target(chars@, pos as int),
        pos <= r <= chars@.len(),
{
    let len = chars.len();
    let mut i = pos;
    while i < len && !is_ascii_space(chars[i])
        invariant
            pos <= i <= len,
            len == chars@.len(),
            next_space(chars@, pos as int) == next_space(chars@, i as int),
        decreases len - i,
    {
        i += 1;
    }
    assert(next_space(chars@, pos as int) == i);
    let mut j = i;
    while j < len && is_ascii_space(chars[j])
        invariant
            i <= j <= len,
            len == chars@.len(),
            next_non_space(chars@, i as int) == next_non_space(chars@, j as int),
        decreases len - j,
    {
        j += 1;
    }
    assert(next_non_space(chars@, i as int) == j);
    j
}

/// Moves the cursor one word to the left of `pos`, to [`word_left_target`].
pub fn word_left_from(chars: &Vec<char>, pos: usize) -> (r: usize)
    requires
        pos <= chars@.len(),
    ensures
        r == word_left_target(chars@, pos as int),
        r <= pos,
{
    let mut i = pos;
    while i > 0 && is_ascii_space(chars[i - 1])
        invariant
            i <= pos <= chars@.len(),
            prev_non_space(chars@, pos - 1) == prev_non_space(chars@, i - 1),
        decreases i,
    {
        i -= 1;
    }
    assert(prev_non_space(chars@, pos - 1) == i - 1 || (i == 0 && prev_non_space(
        chars@,
        pos - 1,
    ) == -1));
    while i > 0 && !is_ascii_space(chars[i - 1])
        invariant
            i <= pos <= chars@.len(),
            prev_space(chars@, prev_non_space(chars@, pos - 1)) == prev_space(chars@, i - 1),
        decreases i,
    {
        i -= 1;
    }
    i
}

/// A copy of `input` without the codepoint at `index`; an out-of-range
/// index returns the whole content unchanged.
pub fn remove_char_at(input: &Vec<char>, index: usize) -> (r: Vec<char>)
    ensures
        index < input@.len() ==> r@ == input@.remove(index as int),
        index >= input@.len() ==> r@ == input@,
{
    let mut out: Vec<char> = Vec::new();
    let mut i: usize = 0;
    while i < input.len()
        invariant
            i <= input@.len(),
            i <= index ==> out@ == input@.take(i as int),
            i > index ==> out@ == input@.take(index as int) + input@.subrange(
                index as int + 1,
                i as int,
            ),
        decreases input@.len() - i,
    {
        if i != index {
            out.push(input[i]);
            if i < index {
                assert(out@ =~= input@.take(i + 1 as int));
            } else {
                assert(out@ =~= input@.take(index as int) + input@.subrange(
                    index as int + 1,
                    i + 1 as int,
                ));
            }
        } else {
            assert(out@ =~= input@.take(index as int) + input@.subrange(
                index as int + 1,
                i + 1 as int,
            ));
        }
        i += 1;
    }
    if index < input.len() {
        assert(out@ =~= input@.remove(index as int));
    } else {
        assert(out@ =~= input@);
    }
    out
}

/// A copy of the codepoints of `chars` in positions `lo` up to `hi`.
pub(crate) fn copy_range(chars: &Vec<char>, lo: usize, hi: usize) -> (r: Vec<char>)
    requires
        lo <= hi <= chars@.len(),
    ensures
        r@ == chars@.subrange(lo as int, hi as int),
{
    let mut out: Vec<char> = Vec::new();
    let mut i = lo;
    while i < hi
        invariant
            lo <= i <= hi <= chars@.len(),
            out@ == chars@.subrange(lo as int, i as int),
        decreases hi - i,
    {
        out.push(chars[i]);
        assert(out@ =~= chars@.subrange(lo as int, i + 1 as int));
        i += 1;
    }
    out
}

/// A copy of the whole of `chars`.
pub(crate) fn clone_chars(chars: &Vec<char>) -> (r: Vec<char>)
    ensures
        r@ == chars@,
{
    let r = copy_range(chars, 0, chars.len());
    assert(r@ =~= chars@);
    r
}

/// Inserts `text` into `chars` so that it starts at codepoint position
/// `pos`, shifting what followed to the right.
pub(crate) fn insert_chars_at(chars: &mut Vec<char>, pos: usize, text: &Vec<char>)
    requires
        pos <= old(chars)@.len(),
    ensures
        final(chars)@ == old(chars)@.take(pos as int) + text@ + old(chars)@.skip(pos as int),
{
    let mut out = copy_range(chars, 0, pos);
    let mut j: usize = 0;
    while j < text.len()
        invariant
            j <= text@.len(),
            out@ == chars@.take(pos as int) + text@.take(j as int),
            pos <= chars@.len(),
            chars@ == old(chars)@,
        decreases text@.len() - j,
    {
        out.push(text[j]);
        assert(out@ =~= chars@.take(pos as int) + text@.take(j + 1 as int));
        j += 1;
    }
    assert(text@.take(text@.len() as int) =~= text@);
    let mut i = pos;
    while i < chars.len()
        invariant
            pos <= i <= chars@.len(),
            out@ == chars@.take(pos as int) + text@ + chars@.subrange(pos as int, i as int),
            chars@ == old(chars)@,
        decreases chars@.len() - i,
    {
        out.push(chars[i]);
        assert(out@ =~= chars@.take(pos as int) + text@ + chars@.subrange(
            pos as int,
            i + 1 as int,
        ));
        i += 1;
    }
    assert(chars@.subrange(pos as int, chars@.len() as int) == chars@.skip(pos as int));
    *chars = out;
}

/// Removes the codepoints in positions `lo` up to `hi` from `chars`.
pub(crate) fn remove_range(chars: &mut Vec<char>, lo: usize, hi: usize)
    requires
        lo <= hi <= old(chars)@.len(),
    ensures
        final(chars)@ == old(chars)@.take(lo as int) + old(chars)@.skip(hi as int),
{
    let mut out = copy_range(chars, 0, lo);
    let mut i = hi;
    while i < chars.len()
        invariant
            hi <= i <= chars@.len(),
            lo <= hi,
            out@ == chars@.take(lo as int) + chars@.subrange(hi as int, i as int),
            chars@ == old(chars)@,
        decreases chars@.len() - i,
    {
        out.push(chars[i]);
        assert(out@ =~= chars@.take(lo as int) + chars@.subrange(hi as int, i + 1 as int));
        i += 1;
    }
    assert(chars@.subrange(hi as int, chars@.len() as int) == chars@.skip(hi as int));
    *chars = out;
}

/// How many bytes the UTF-8 encoding of `c` takes: 1 to 4.
pub open spec fn utf8_width(c: char) -> int {
    if (c as u32) < 0x80 {
        1
    } else if (c as u32) < 0x800 {
        2
    } else if (c as u32) < 0x10000 {
        3
    } else {
        4
    }
}

/// The byte offset at which the codepoint in position `n` of `s` starts in
/// the UTF-8 encoding of `s`: the widths of the `n` codepoints before it,
/// added up.
pub open spec fn byte_index_of(s: Seq<char>, n: int) -> int
    decreases n,
    when 0 <= n <= s.len()
{
    if n <= 0 {
        0
    } else {
        byte_index_of(s, n - 1) + utf8_width(s[n - 1])
    }
}

pub proof fn lemma_byte_index_bound(s: Seq<char>, n: int)
    requires
        0 <= n <= s.len(),
    ensures
        0 <= byte_index_of(s, n) <= 4 * n,
    decreases n,
{
    if n > 0 {
        lemma_byte_index_bound(s, n - 1);
    }
}

/// The byte offset in the UTF-8 encoding of `chars` at which the codepoint
/// in position `char_pos` starts, or the total byte length when `char_pos`
/// lies past the end.
pub fn byte_pos(chars: &Vec<char>, char_pos: usize) -> (r: usize)
    requires
        chars@.len() * 4 <= usize::MAX,
    ensures
        r == byte_index_of(chars@, vstd::math::min(char_pos as int, chars@.len() as int)),
{
    let n = if char_pos < chars.len() {
        char_pos
    } else {
        chars.len()
    };
    let mut total: usize = 0;
    let mut i: usize = 0;
    while i < n
        invariant
            i <= n <= chars@.len(),
            chars@.len() * 4 <= usize::MAX,
            total == byte_index_of(chars@, i as int),
            total <= 4 * i,
        decreases n - i,
    {
        let c = chars[i];
        let w: usize = if (c as u32) < 0x80 {
            1
        } else if (c as u32) < 0x800 {
            2
        } else if (c as u32) < 0x10000 {
            3
        } else {
            4
        };
        assert(w == utf8_width(c));
        total += w;
        i += 1;
    }
    total
}

} // verus!
