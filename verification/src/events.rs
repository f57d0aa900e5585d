use vstd::prelude::*;

use crate::action::TextInputAction;
use crate::binding::TextInputBinding;
use crate::binding::TextInputNavigationBindings;
use crate::binding::key_held;
use crate::binding::resolve_action;
use crate::binding::spec_resolve;
use crate::interpret::ActionOutcome;
use crate::interpret::ActionOutcomeView;
use crate::interpret::clipboard_view;
use crate::interpret::insert_at_cursor;
use crate::interpret::quiet_outcome;
use crate::interpret::spec_apply;
use crate::key::Key;
use crate::state::TextInputInactive;
use crate::state::TextInputSettings;
use crate::state::TextInputState;
use crate::state::TextInputStateView;
use crate::text::clone_chars;

verus! {

/// What a key press means as text, independent of the physical key: the
/// host's input source fills this from its own notion of a logical key.
#[derive(Debug, Clone)]
pub enum LogicalKey {
    /// The press types a space.
    Space,
    /// The press types the given codepoints (committed text, as an input
    /// method hands it over).
    Character(Vec<char>),
    /// The press types nothing.
    Other,
}

/// One keyboard event of a frame's batch.
#[derive(Debug, Clone)]
pub struct KeyInput {
    /// The physical key, for resolving against the binding table.
    pub key: Key,
    /// True for a press, false for a release. Releases are ignored.
    pub pressed: bool,
    /// What the press types when no binding matches.
    pub logical: LogicalKey,
}

/// The record emitted once per activation of the submit action.
#[derive(Debug, Clone)]
pub struct TextInputSubmitEvent {
    /// The host-assigned identifier of the widget that submitted.
    pub entity: u64,
    /// The buffer's content at the time of the submit action.
    pub value: Vec<char>,
}

/// The bookkeeping for the cursor's blinking. The host owns the periodic
/// timer itself; the model only records whether an edit asked for the
/// blink phase to restart.
#[derive(Debug, Clone, Copy, PartialEq, Eq, Structural)]
pub struct TextInputCursorTimer {
    /// True when an edit happened since the last blink step, so the blink
    /// phase must restart in its visible state.
    pub should_reset: bool,
}

impl Default for TextInputCursorTimer {
    /// No reset is pending.
    fn default() -> (r: Self)
        ensures
            r.should_reset == false,
    {
        TextInputCursorTimer { should_reset: false }
    }
}

impl TextInputCursorTimer {
    /// One step of the cursor-blink rule. `just_finished` reports whether
    /// the host's periodic timer fired since the last step, and `visible`
    /// whether the cursor indicator is currently shown. Returns the new
    /// visibility and whether the host must restart its timer: while the
    /// model is inactive nothing changes; a pending reset makes the cursor
    /// visible and restarts the timer; otherwise the visibility toggles
    /// each time the timer fires.
    pub fn blink_step(&mut self, inactive: bool, just_finished: bool, visible: bool) -> (r: (
        bool,
        bool,
    ))
        ensures
            inactive ==> *final(self) == *old(self) && r == (visible, false),
            !inactive && old(self).should_reset ==> final(self).should_reset == false && r == (
                true,
                true,
            ),
            !inactive && !old(self).should_reset ==> *final(self) == *old(self) && r == (
                if just_finished {
                    !visible
                } else {
                    visible
                },
                false,
            ),
    {
        if inactive {
            (visible, false)
        } else if self.should_reset {
            self.should_reset = false;
            (true, true)
        } else if just_finished {
            (!visible, false)
        } else {
            (visible, false)
        }
    }
}

/// Whether the extend-selection modifier (either Shift key) is held.
pub open spec fn extend_of(held: Seq<Key>) -> bool {
    held.contains(Key::ShiftLeft) || held.contains(Key::ShiftRight)
}

/// Reports whether the extend-selection modifier (either Shift key) is in
/// `held`.
pub fn extend_held(held: &Vec<Key>) -> (r: bool)
    ensures
        r == extend_of(held@),
{
    key_held(held, Key::ShiftLeft) || key_held(held, Key::ShiftRight)
}

/// The content of an optional owned text, for contracts.
pub open spec fn opt_chars_view(c: Option<Vec<char>>) -> Option<Seq<char>> {
    match c {
        Some(v) => Some(v@),
        None => None,
    }
}

/// The submitted text carried by an optional submit event, for contracts.
pub open spec fn submitted_view(e: Option<TextInputSubmitEvent>) -> Option<Seq<char>> {
    match e {
        Some(ev) => Some(ev.value@),
        None => None,
    }
}

/// The model state and the values accumulated so far while a frame's
/// batch of events is folded, as the contracts of [`process_events`] see
/// them.
pub struct BatchView {
    /// The model.
    pub state: TextInputStateView,
    /// The clipboard content the model currently believes: what the host
    /// handed in, overridden by the latest cut or copy of the batch.
    pub clipboard: Option<Seq<char>>,
    /// The value of the latest submit action of the batch.
    pub submitted: Option<Seq<char>>,
    /// The text of the latest cut or copy of the batch, which the host
    /// must hand to the clipboard.
    pub clipboard_set: Option<Seq<char>>,
    /// Whether any event of the batch asked the blink timer to restart.
    pub timer_reset: bool,
}

/// What one event of the batch does to the model: a release does nothing;
/// a press resolves against the binding table and applies the resolved
/// action, with either Shift as the extend-selection modifier; an
/// unresolved press types its logical text, if it has any.
pub open spec fn spec_event_step(
    s: TextInputStateView,
    settings: TextInputSettings,
    bindings: Seq<(TextInputAction, TextInputBinding)>,
    held: Seq<Key>,
    ev: KeyInput,
    clipboard: Option<Seq<char>>,
) -> (TextInputStateView, ActionOutcomeView)
    recommends
        s.wf(),
{
    if !ev.pressed {
        (s, quiet_outcome(false, false))
    } else {
        match spec_resolve(bindings, ev.key, held) {
            Some(action) => spec_apply(s, settings, action, extend_of(held), clipboard),
            None => match ev.logical {
                LogicalKey::Space => (insert_at_cursor(s, seq![' ']), quiet_outcome(true, true)),
                LogicalKey::Character(text) => (
                    insert_at_cursor(s, text@),
                    quiet_outcome(true, true),
                ),
                LogicalKey::Other => (s, quiet_outcome(false, false)),
            },
        }
    }
}

/// Folds a batch of events over the model in arrival order, threading the
/// clipboard through and keeping the latest submitted and cut or copied
/// values.
pub open spec fn spec_process(
    b: BatchView,
    settings: TextInputSettings,
    bindings: Seq<(TextInputAction, TextInputBinding)>,
    held: Seq<Key>,
    events: Seq<KeyInput>,
) -> BatchView
    recommends
        b.state.wf(),
    decreases events.len(),
{
    if events.len() == 0 {
        b
    } else {
        let (s1, out) = spec_event_step(b.state, settings, bindings, held, events[0], b.clipboard);
        let b1 = BatchView {
            state: s1,
            clipboard: if out.clipboard_set is Some {
                out.clipboard_set
            } else {
                b.clipboard
            },
            submitted: if out.submitted is Some {
                out.submitted
            } else {
                b.submitted
            },
            clipboard_set: if out.clipboard_set is Some {
                out.clipboard_set
            } else {
                b.clipboard_set
            },
            timer_reset: b.timer_reset || out.timer_reset,
        };
        spec_process(b1, settings, bindings, held, events.drop_first())
    }
}

/// The batch a frame starts from: the model as it stands, the clipboard as
/// the host reads it, and nothing accumulated.
pub open spec fn start_batch(
    s: TextInputStateView,
    clipboard: Option<Seq<char>>,
) -> BatchView {
    BatchView {
        state: s,
        clipboard: clipboard,
        submitted: None,
        clipboard_set: None,
        timer_reset: false,
    }
}

/// What a frame's batch returns to the host besides the mutated model.
#[derive(Debug, Clone)]
pub struct BatchOutcome {
    /// The submit event to emit, from the latest submit action of the
    /// batch.
    pub submit_event: Option<TextInputSubmitEvent>,
    /// Text the host must hand to the clipboard, from the latest cut or
    /// copy of the batch.
    pub clipboard_set: Option<Vec<char>>,
}

/// Applies one frame's batch of keyboard events to the model, in arrival
/// order, as [`spec_process`] describes. While `inactive` is set the model
/// ignores all input. `held` is the set of keys held during the frame,
/// `clipboard` the clipboard content as the frame begins, and `entity` the
/// host's identifier for the widget, stamped on the submit event.
pub fn process_events(
    state: &mut TextInputState,
    timer: &mut TextInputCursorTimer,
    settings: &TextInputSettings,
    inactive: &TextInputInactive,
    bindings: &TextInputNavigationBindings,
    held: &Vec<Key>,
    events: &Vec<KeyInput>,
    clipboard: Option<&Vec<char>>,
    entity: u64,
) -> (r: BatchOutcome)
    requires
        old(state).wf(),
    ensures
        final(state).wf(),
        inactive.0 ==> final(state)@ == old(state)@ && *final(timer) == *old(timer)
            && r.submit_event is None && r.clipboard_set is None,
        !inactive.0 ==> ({
            let b = spec_process(
                start_batch(old(state)@, clipboard_view(clipboard)),
                *settings,
                bindings.0@,
                held@,
                events@,
            );
            &&& final(state)@ == b.state
            &&& final(timer).should_reset == (old(timer).should_reset || b.timer_reset)
            &&& submitted_view(r.submit_event) == b.submitted
            &&& (r.submit_event is Some ==> r.submit_event->0.entity == entity)
            &&& opt_chars_view(r.clipboard_set) == b.clipboard_set
        }),
{
    if inactive.0 {
        return BatchOutcome { submit_event: None, clipboard_set: None };
    }
    let ghost b0 = start_batch(old(state)@, clipboard_view(clipboard));
    let mut clip_cur: Option<Vec<char>> = match clipboard {
        Some(c) => Some(clone_chars(c)),
        None => None,
    };
    let mut submitted: Option<Vec<char>> = None;
    let mut clip_out: Option<Vec<char>> = None;
    let mut timer_flag = false;
    let n = events.len();
    let mut i: usize = 0;
    proof {
        assert(events@.skip(0) =~= events@);
    }
    while i < n
        invariant
            i <= n,
            n == events@.len(),
            state.wf(),
            spec_process(
                BatchView {
                    state: state@,
                    clipboard: opt_chars_view(clip_cur),
                    submitted: opt_chars_view(submitted),
                    clipboard_set: opt_chars_view(clip_out),
                    timer_reset: timer_flag,
                },
                *settings,
                bindings.0@,
                held@,
                events@.skip(i as int),
            ) == spec_process(b0, *settings, bindings.0@, held@, events@),
        decreases n - i,
    {
        proof {
            assert(events@.skip(i as int)[0] == events@[i as int]);
            assert(events@.skip(i as int).drop_first() =~= events@.skip(i + 1 as int));
        }
        let ev = &events[i];
        if ev.pressed {
            match resolve_action(bindings, ev.key, held) {
                Some(action) => {
                    let extend = extend_held(held);
                    let out = state.apply_action(settings, action, extend, clip_cur.as_ref());
                    let ActionOutcome { submitted: sub_o, clipboard_set: clip_o, timer_reset: tr, cursor_change: _ } =
                        out;
                    if tr {
                        timer_flag = true;
                    }
                    if sub_o.is_some() {
                        submitted = sub_o;
                    }
                    if clip_o.is_some() {
                        let t = clip_o.unwrap();
                        clip_cur = Some(clone_chars(&t));
                        clip_out = Some(t);
                    }
                },
                None => {
                    match &ev.logical {
                        LogicalKey::Space => {
                            let mut sp: Vec<char> = Vec::new();
                            sp.push(' ');
                            proof {
                                assert(sp@ =~= seq![' ']);
                            }
                            state.insert_text(&sp);
                            timer_flag = true;
                        },
                        LogicalKey::Character(text) => {
                            state.insert_text(text);
                            timer_flag = true;
                        },
                        LogicalKey::Other => {},
                    }
                },
            }
        }
        i += 1;
    }
    proof {
        assert(events@.skip(n as int).len() == 0);
    }
    if timer_flag {
        timer.should_reset = true;
    }
    let submit_event = match submitted {
        Some(v) => Some(TextInputSubmitEvent { entity, value: v }),
        None => None,
    };
    BatchOutcome { submit_event, clipboard_set: clip_out }
}

} // verus!
