use vstd::prelude::*;

use crate::action::TextInputAction;
use crate::key::Key;

verus! {

/// A combination of a primary key and required modifier keys that can
/// trigger a [`TextInputAction`].
#[derive(Debug, Clone)]
pub struct TextInputBinding {
    /// The primary key.
    pub key: Key,
    /// The modifier keys that must all be held when the primary key is
    /// pressed.
    pub modifiers: Vec<Key>,
}

impl TextInputBinding {
    /// A binding of `key` pressed while all of `modifiers` are held.
    pub fn new(key: Key, modifiers: Vec<Key>) -> (r: Self)
        ensures
            r.key == key,
            r.modifiers@ == modifiers@,
    {
        TextInputBinding { key, modifiers }
    }
}

/// An ordered table associating key combinations with semantic actions.
///
/// All of a binding's modifiers must be held when its primary key is
/// pressed for the binding to match, and the first matching entry wins, so
/// an entry that shares its primary key with another but asks for more
/// modifiers must stand earlier in the list to be reachable.
pub struct TextInputNavigationBindings(pub Vec<(TextInputAction, TextInputBinding)>);

/// Holds when pressing `key` with the set `held` of keys held triggers
/// binding `b`: the primary key matches and every required modifier is
/// held.
pub open spec fn binding_matches(b: TextInputBinding, key: Key, held: Seq<Key>) -> bool {
    &&& b.key == key
    &&& forall|i: int| 0 <= i < b.modifiers@.len() ==> held.contains(#[trigger] b.modifiers@[i])
}

/// The action of the first entry of `bindings` that [`binding_matches`]
/// the pressed key, or nothing when no entry matches.
pub open spec fn spec_resolve(
    bindings: Seq<(TextInputAction, TextInputBinding)>,
    key: Key,
    held: Seq<Key>,
) -> Option<TextInputAction>
    decreases bindings.len(),
{
    if bindings.len() == 0 {
        None
    } else if binding_matches(bindings[0].1, key, held) {
        Some(bindings[0].0)
    } else {
        spec_resolve(bindings.drop_first(), key, held)
    }
}

/// Reports whether `held` holds `m`.
pub(crate) fn key_held(held: &Vec<Key>, m: Key) -> (r: bool)
    ensures
        r == held@.contains(m),
{
    let mut i: usize = 0;
    while i < held.len()
        invariant
            i <= held@.len(),
            forall|k: int| 0 <= k < i ==> held@[k] != m,
        decreases held@.len() - i,
    {
        if held[i] == m {
            return true;
        }
        i += 1;
    }
    false
}

/// Reports whether every modifier of `b` is held.
fn all_modifiers_held(b: &TextInputBinding, held: &Vec<Key>) -> (r: bool)
    ensures
        r == forall|i: int|
            0 <= i < b.modifiers@.len() ==> held@.contains(#[trigger] b.modifiers@[i]),
{
    let mut j: usize = 0;
    while j < b.modifiers.len()
        invariant
            j <= b.modifiers@.len(),
            forall|k: int| 0 <= k < j ==> held@.contains(#[trigger] b.modifiers@[k]),
        decreases b.modifiers@.len() - j,
    {
        if !key_held(held, b.modifiers[j]) {
            return false;
        }
        j += 1;
    }
    true
}

/// Resolves a pressed key against the binding table: the first entry whose
/// primary key is `key` and whose required modifiers are all in `held`
/// gives the action, as [`spec_resolve`] describes.
pub fn resolve_action(
    bindings: &TextInputNavigationBindings,
    key: Key,
    held: &Vec<Key>,
) -> (r: Option<TextInputAction>)
    ensures
        r == spec_resolve(bindings.0@, key, held@),
{
    let n = bindings.0.len();
    proof {
        assert(bindings.0@.skip(0) =~= bindings.0@);
    }
    let mut i: usize = 0;
    while i < n
        invariant
            i <= n,
            n == bindings.0@.len(),
            spec_resolve(bindings.0@, key, held@) == spec_resolve(
                bindings.0@.skip(i as int),
                key,
                held@,
            ),
        decreases n - i,
    {
        proof {
            assert(bindings.0@.skip(i as int)[0] == bindings.0@[i as int]);
        }
        let matched = if bindings.0[i].1.key == key {
            all_modifiers_held(&bindings.0[i].1, held)
        } else {
            false
        };
        if matched {
            return Some(bindings.0[i].0);
        }
        proof {
            assert(!binding_matches(bindings.0@[i as int].1, key, held@));
            assert(bindings.0@.skip(i as int).drop_first() =~= bindings.0@.skip(i + 1 as int));
        }
        i += 1;
    }
    proof {
        assert(bindings.0@.skip(n as int).len() == 0);
    }
    None
}

/// The entries of a binding table, with the modifier lists as sequences.
pub open spec fn bindings_view(bs: Seq<(TextInputAction, TextInputBinding)>) -> Seq<
    (TextInputAction, Key, Seq<Key>),
> {
    bs.map_values(|p: (TextInputAction, TextInputBinding)| (p.0, p.1.key, p.1.modifiers@))
}

/// The table that [`TextInputNavigationBindings::control_based`] builds.
pub open spec fn control_based_table() -> Seq<(TextInputAction, Key, Seq<Key>)> {
    seq![
        (TextInputAction::LineStart, Key::Home, Seq::<Key>::empty()),
        (TextInputAction::LineEnd, Key::End, Seq::<Key>::empty()),
        (TextInputAction::WordLeft, Key::ArrowLeft, seq![Key::ControlLeft]),
        (TextInputAction::WordLeft, Key::ArrowLeft, seq![Key::ControlRight]),
        (TextInputAction::WordRight, Key::ArrowRight, seq![Key::ControlLeft]),
        (TextInputAction::WordRight, Key::ArrowRight, seq![Key::ControlRight]),
        (TextInputAction::CharLeft, Key::ArrowLeft, Seq::<Key>::empty()),
        (TextInputAction::CharRight, Key::ArrowRight, Seq::<Key>::empty()),
        (TextInputAction::DeletePrev, Key::Backspace, Seq::<Key>::empty()),
        (TextInputAction::DeletePrev, Key::NumpadBackspace, Seq::<Key>::empty()),
        (TextInputAction::DeleteNext, Key::Delete, Seq::<Key>::empty()),
        (TextInputAction::Submit, Key::Enter, Seq::<Key>::empty()),
        (TextInputAction::Submit, Key::NumpadEnter, Seq::<Key>::empty()),
    ]
}

/// The table that [`TextInputNavigationBindings::super_alt_based`] builds.
pub open spec fn super_alt_based_table() -> Seq<(TextInputAction, Key, Seq<Key>)> {
    seq![
        (TextInputAction::LineStart, Key::ArrowLeft, seq![Key::SuperLeft]),
        (TextInputAction::LineStart, Key::ArrowLeft, seq![Key::SuperRight]),
        (TextInputAction::LineEnd, Key::ArrowRight, seq![Key::SuperLeft]),
        (TextInputAction::LineEnd, Key::ArrowRight, seq![Key::SuperRight]),
        (TextInputAction::WordLeft, Key::ArrowLeft, seq![Key::AltLeft]),
        (TextInputAction::WordLeft, Key::ArrowLeft, seq![Key::AltRight]),
        (TextInputAction::WordRight, Key::ArrowRight, seq![Key::AltLeft]),
        (TextInputAction::WordRight, Key::ArrowRight, seq![Key::AltRight]),
        (TextInputAction::CharLeft, Key::ArrowLeft, Seq::<Key>::empty()),
        (TextInputAction::CharRight, Key::ArrowRight, Seq::<Key>::empty()),
        (TextInputAction::DeletePrev, Key::Backspace, Seq::<Key>::empty()),
        (TextInputAction::DeletePrev, Key::NumpadBackspace, Seq::<Key>::empty()),
        (TextInputAction::DeleteNext, Key::Delete, Seq::<Key>::empty()),
        (TextInputAction::Submit, Key::Enter, Seq::<Key>::empty()),
        (TextInputAction::Submit, Key::NumpadEnter, Seq::<Key>::empty()),
    ]
}

/// A one-element modifier list.
fn one_modifier(k: Key) -> (r: Vec<Key>)
    ensures
        r@ == seq![k],
{
    let mut v: Vec<Key> = Vec::new();
    v.push(k);
    proof {
        assert(v@ =~= seq![k]);
    }
    v
}

impl TextInputNavigationBindings {
    /// The default table for hosts whose word navigation goes through the
    /// Control key: Home and End reach the ends of the line, Control with
    /// an arrow moves by a word, a bare arrow by a codepoint, Backspace
    /// and Delete remove a codepoint, and Enter submits.
    pub fn control_based() -> (r: Self)
        ensures
            bindings_view(r.0@) == control_based_table(),
    {
        let mut v: Vec<(TextInputAction, TextInputBinding)> = Vec::new();
        v.push((TextInputAction::LineStart, TextInputBinding::new(Key::Home, Vec::new())));
        v.push((TextInputAction::LineEnd, TextInputBinding::new(Key::End, Vec::new())));
        v.push(
            (
                TextInputAction::WordLeft,
                TextInputBinding::new(Key::ArrowLeft, one_modifier(Key::ControlLeft)),
            ),
        );
        v.push(
            (
                TextInputAction::WordLeft,
                TextInputBinding::new(Key::ArrowLeft, one_modifier(Key::ControlRight)),
            ),
        );
        v.push(
            (
                TextInputAction::WordRight,
                TextInputBinding::new(Key::ArrowRight, one_modifier(Key::ControlLeft)),
            ),
        );
        v.push(
            (
                TextInputAction::WordRight,
                TextInputBinding::new(Key::ArrowRight, one_modifier(Key::ControlRight)),
            ),
        );
        v.push((TextInputAction::CharLeft, TextInputBinding::new(Key::ArrowLeft, Vec::new())));
        v.push((TextInputAction::CharRight, TextInputBinding::new(Key::ArrowRight, Vec::new())));
        v.push((TextInputAction::DeletePrev, TextInputBinding::new(Key::Backspace, Vec::new())));
        v.push(
            (TextInputAction::DeletePrev, TextInputBinding::new(Key::NumpadBackspace, Vec::new())),
        );
        v.push((TextInputAction::DeleteNext, TextInputBinding::new(Key::Delete, Vec::new())));
        v.push((TextInputAction::Submit, TextInputBinding::new(Key::Enter, Vec::new())));
        v.push((TextInputAction::Submit, TextInputBinding::new(Key::NumpadEnter, Vec::new())));
        let r = TextInputNavigationBindings(v);
        proof {
            assert(bindings_view(r.0@) =~~= control_based_table());
        }
        r
    }

    /// The default table for hosts whose line navigation goes through the
    /// Super (command) key and whose word navigation goes through Alt.
    pub fn super_alt_based() -> (r: Self)
        ensures
            bindings_view(r.0@) == super_alt_based_table(),
    {
        let mut v: Vec<(TextInputAction, TextInputBinding)> = Vec::new();
        v.push(
            (
                TextInputAction::LineStart,
                TextInputBinding::new(Key::ArrowLeft, one_modifier(Key::SuperLeft)),
            ),
        );
        v.push(
            (
                TextInputAction::LineStart,
                TextInputBinding::new(Key::ArrowLeft, one_modifier(Key::SuperRight)),
            ),
        );
        v.push(
            (
                TextInputAction::LineEnd,
                TextInputBinding::new(Key::ArrowRight, one_modifier(Key::SuperLeft)),
            ),
        );
        v.push(
            (
                TextInputAction::LineEnd,
                TextInputBinding::new(Key::ArrowRight, one_modifier(Key::SuperRight)),
            ),
        );
        v.push(
            (
                TextInputAction::WordLeft,
                TextInputBinding::new(Key::ArrowLeft, one_modifier(Key::AltLeft)),
            ),
        );
        v.push(
            (
                TextInputAction::WordLeft,
                TextInputBinding::new(Key::ArrowLeft, one_modifier(Key::AltRight)),
            ),
        );
        v.push(
            (
                TextInputAction::WordRight,
                TextInputBinding::new(Key::ArrowRight, one_modifier(Key::AltLeft)),
            ),
        );
        v.push(
            (
                TextInputAction::WordRight,
                TextInputBinding::new(Key::ArrowRight, one_modifier(Key::AltRight)),
            ),
        );
        v.push((TextInputAction::CharLeft, TextInputBinding::new(Key::ArrowLeft, Vec::new())));
        v.push((TextInputAction::CharRight, TextInputBinding::new(Key::ArrowRight, Vec::new())));
        v.push((TextInputAction::DeletePrev, TextInputBinding::new(Key::Backspace, Vec::new())));
        v.push(
            (TextInputAction::DeletePrev, TextInputBinding::new(Key::NumpadBackspace, Vec::new())),
        );
        v.push((TextInputAction::DeleteNext, TextInputBinding::new(Key::Delete, Vec::new())));
        v.push((TextInputAction::Submit, TextInputBinding::new(Key::Enter, Vec::new())));
        v.push((TextInputAction::Submit, TextInputBinding::new(Key::NumpadEnter, Vec::new())));
        let r = TextInputNavigationBindings(v);
        proof {
            assert(bindings_view(r.0@) =~~= super_alt_based_table());
        }
        r
    }
}

impl Default for TextInputNavigationBindings {
    /// The Control-based table.
    fn default() -> (r: Self)
        ensures
            bindings_view(r.0@) == control_based_table(),
    {
        TextInputNavigationBindings::control_based()
    }
}

} // verus!
