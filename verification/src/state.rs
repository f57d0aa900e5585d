use vstd::prelude::*;

verus! {

/// The current content of a text input, as a sequence of Unicode
/// codepoints. Every position the model works with counts codepoints,
/// never bytes.
#[derive(Debug, Clone)]
pub struct TextInputValue(pub Vec<char>);

impl View for TextInputValue {
    type V = Seq<char>;

    open spec fn view(&self) -> Seq<char> {
        self.0@
    }
}

impl Default for TextInputValue {
    /// An empty content.
    fn default() -> (r: Self)
        ensures
            r@ == Seq::<char>::empty(),
    {
        let r = TextInputValue(Vec::new());
        assert(r@ =~= Seq::<char>::empty());
        r
    }
}

/// The position of the text cursor: an insertion point between codepoints,
/// in `[0, len]` for a buffer of `len` codepoints.
#[derive(Debug, Clone, Copy, PartialEq, Eq, Structural)]
pub struct TextInputCursorPos(pub usize);

impl Default for TextInputCursorPos {
    /// The cursor at the start of the buffer.
    fn default() -> (r: Self)
        ensures
            r.0 == 0,
    {
        TextInputCursorPos(0)
    }
}

/// While true, the editing model ignores all input and the host hides the
/// cursor indicator.
#[derive(Debug, Clone, Copy, PartialEq, Eq, Structural)]
pub struct TextInputInactive(pub bool);

impl Default for TextInputInactive {
    /// The model starts out active.
    fn default() -> (r: Self)
        ensures
            r.0 == false,
    {
        TextInputInactive(false)
    }
}

/// The text input's settings.
#[derive(Debug, Clone, Copy, PartialEq, Eq, Structural)]
pub struct TextInputSettings {
    /// If true, the buffer is kept as it is when the submit action fires;
    /// otherwise it is cleared and the cursor returns to the start.
    pub retain_on_submit: bool,
    /// When present, the externally visible projection of the buffer shows
    /// this codepoint in place of every real one, while the buffer itself
    /// keeps the true content.
    pub mask_character: Option<char>,
}

impl Default for TextInputSettings {
    /// Submit clears the buffer, and no mask is configured.
    fn default() -> (r: Self)
        ensures
            r.retain_on_submit == false,
            r.mask_character is None,
    {
        TextInputSettings { retain_on_submit: false, mask_character: None }
    }
}

/// A buffer-and-cursor snapshot kept on the undo and redo stacks.
#[derive(Debug, Clone)]
pub struct EditSnapshot {
    /// The buffer content at the time of the snapshot.
    pub value: Vec<char>,
    /// The cursor position at the time of the snapshot.
    pub cursor: usize,
}

/// The mathematical content of an [`EditSnapshot`].
pub struct SnapshotView {
    /// The buffer content at the time of the snapshot.
    pub buffer: Seq<char>,
    /// The cursor position at the time of the snapshot.
    pub cursor: int,
}

impl SnapshotView {
    /// The snapshot's cursor lies within its buffer.
    pub open spec fn wf(self) -> bool {
        0 <= self.cursor <= self.buffer.len()
    }
}

impl View for EditSnapshot {
    type V = SnapshotView;

    open spec fn view(&self) -> SnapshotView {
        SnapshotView { buffer: self.value@, cursor: self.cursor as int }
    }
}

/// The mathematical content of a [`TextInputState`]: what the contracts of
/// the interpreter speak about.
pub struct TextInputStateView {
    /// The buffer, as a sequence of codepoints.
    pub buffer: Seq<char>,
    /// The cursor: an insertion point in `[0, buffer.len()]`.
    pub cursor: int,
    /// The selection anchor. When present, the span between the anchor and
    /// the cursor (in either order) is selected.
    pub anchor: Option<int>,
    /// Snapshots that the undo action restores, oldest first.
    pub undo: Seq<SnapshotView>,
    /// Snapshots that the redo action restores, oldest first.
    pub redo: Seq<SnapshotView>,
}

impl TextInputStateView {
    /// Cursor and anchor lie within the buffer, and every snapshot is
    /// well formed.
    pub open spec fn wf(self) -> bool {
        &&& 0 <= self.cursor <= self.buffer.len()
        &&& self.anchor is Some ==> 0 <= self.anchor->0 <= self.buffer.len()
        &&& forall|i: int| 0 <= i < self.undo.len() ==> (#[trigger] self.undo[i]).wf()
        &&& forall|i: int| 0 <= i < self.redo.len() ==> (#[trigger] self.redo[i]).wf()
    }

    /// The lower bound of the selected span.
    pub open spec fn sel_lo(self) -> int
        recommends
            self.anchor is Some,
    {
        vstd::math::min(self.anchor->0, self.cursor)
    }

    /// The upper bound of the selected span.
    pub open spec fn sel_hi(self) -> int
        recommends
            self.anchor is Some,
    {
        vstd::math::max(self.anchor->0, self.cursor)
    }
}

/// The content of a stack of snapshots, oldest first.
pub open spec fn snaps_view(v: Seq<EditSnapshot>) -> Seq<SnapshotView> {
    v.map_values(|s: EditSnapshot| s@)
}

pub proof fn lemma_snaps_view_push(v: Seq<EditSnapshot>, x: EditSnapshot)
    ensures
        snaps_view(v.push(x)) == snaps_view(v).push(x@),
{
    assert(snaps_view(v.push(x)) =~= snaps_view(v).push(x@));
}

pub proof fn lemma_snaps_view_drop_last(v: Seq<EditSnapshot>)
    requires
        v.len() > 0,
    ensures
        snaps_view(v.drop_last()) == snaps_view(v).drop_last(),
        snaps_view(v).last() == v.last()@,
{
    assert(snaps_view(v.drop_last()) =~= snaps_view(v).drop_last());
}

/// The whole editing model of one text input: buffer, cursor, selection
/// anchor and edit history. The interpreter mutates it one action at a
/// time; the host reads the fields to render the widget.
#[derive(Debug, Clone)]
pub struct TextInputState {
    /// The buffer.
    pub value: TextInputValue,
    /// The cursor.
    pub cursor_pos: TextInputCursorPos,
    /// The selection anchor, when a selection is active.
    pub selection_anchor: Option<usize>,
    /// Snapshots for the undo action, oldest first.
    pub undo_stack: Vec<EditSnapshot>,
    /// Snapshots for the redo action, oldest first.
    pub redo_stack: Vec<EditSnapshot>,
}

impl View for TextInputState {
    type V = TextInputStateView;

    open spec fn view(&self) -> TextInputStateView {
        TextInputStateView {
            buffer: self.value@,
            cursor: self.cursor_pos.0 as int,
            anchor: match self.selection_anchor {
                Some(a) => Some(a as int),
                None => None,
            },
            undo: snaps_view(self.undo_stack@),
            redo: snaps_view(self.redo_stack@),
        }
    }
}

impl TextInputState {
    /// Cursor, anchor and history are all in range for the buffer.
    pub open spec fn wf(self) -> bool {
        self@.wf()
    }

    /// A model over the given content, with the cursor at the end of the
    /// text, no selection and no history.
    pub fn new(value: Vec<char>) -> (r: Self)
        ensures
            r@.buffer == value@,
            r@.cursor == value@.len(),
            r@.anchor is None,
            r@.undo == Seq::<SnapshotView>::empty(),
            r@.redo == Seq::<SnapshotView>::empty(),
            r.wf(),
    {
        let len = value.len();
        let r = TextInputState {
            value: TextInputValue(value),
            cursor_pos: TextInputCursorPos(len),
            selection_anchor: None,
            undo_stack: Vec::new(),
            redo_stack: Vec::new(),
        };
        assert(r@.undo =~= Seq::<SnapshotView>::empty());
        assert(r@.redo =~= Seq::<SnapshotView>::empty());
        r
    }

    /// Replaces the content from outside the interpreter. The cursor moves
    /// to the end of the new text, and selection and history are dropped.
    pub fn set_value(&mut self, value: Vec<char>)
        ensures
            final(self)@.buffer == value@,
            final(self)@.cursor == value@.len(),
            final(self)@.anchor is None,
            final(self)@.undo == Seq::<SnapshotView>::empty(),
            final(self)@.redo == Seq::<SnapshotView>::empty(),
            final(self).wf(),
    {
        *self = TextInputState::new(value);
    }
}

impl Default for TextInputState {
    /// An empty model: no content, cursor at the start, no selection, no
    /// history.
    fn default() -> (r: Self)
        ensures
            r@.buffer == Seq::<char>::empty(),
            r@.cursor == 0,
            r@.anchor is None,
            r@.undo == Seq::<SnapshotView>::empty(),
            r@.redo == Seq::<SnapshotView>::empty(),
            r.wf(),
    {
        let r = TextInputState::new(Vec::new());
        assert(r@.buffer =~= Seq::<char>::empty());
        r
    }
}

} // verus!
