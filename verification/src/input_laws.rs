//! Laws of the button state machine, stated over [`InputView`].

use vstd::prelude::*;
use crate::key_state::KeyState;
use crate::keys::{Key, MouseBtn};
use crate::input::{
    latest_cursor, latest_scroll, Button, Delta, InputView, Modifiers, RawInput, RawKey,
};

verus! {

/// Raw input keeps the tables whole.
pub proof fn raw_input_keeps_tables(s: InputView, raw: RawInput)
    requires
        s.wf(),
    ensures
        s.with_raw(raw).wf(),
{
}

/// A run of raw input keeps the tables whole.
pub proof fn raw_run_keeps_tables(s: InputView, raws: Seq<RawInput>)
    requires
        s.wf(),
    ensures
        s.with_all_raw(raws).wf(),
    decreases raws.len(),
{
    if raws.len() > 0 {
        raw_run_keeps_tables(s, raws.drop_last());
        raw_input_keeps_tables(s.with_all_raw(raws.drop_last()), raws.last());
    }
}

/// Decay keeps the tables whole, and each button's state after `frames` decay
/// steps is that button's own state decayed `frames` times.
pub proof fn decay_acts_per_button(s: InputView, button: Button, frames: nat)
    requires
        s.wf(),
    ensures
        s.decayed_by(frames).wf(),
        s.decayed_by(frames).button(button) == s.button(button).decayed_by(frames),
    decreases frames,
{
    if frames > 0 {
        match button {
            Button::Key(key) => key.index_in_range(),
            Button::Mouse(btn) => {},
        }
        decay_acts_per_button(s.decayed(), button, (frames - 1) as nat);
    }
}

/// An edge on one button leaves every other button as it was.
pub proof fn edge_touches_one_button(s: InputView, button: Button, is_pressed: bool, other: Button)
    requires
        s.wf(),
        other != button,
    ensures
        s.with_edge(button, is_pressed).button(other) == s.button(other),
{
    match (button, other) {
        (Button::Key(a), Button::Key(b)) => {
            if a.spec_index() == b.spec_index() {
                Key::index_injective(a, b);
            }
        },
        (Button::Mouse(a), Button::Mouse(b)) => {
            if a.spec_index() == b.spec_index() {
                MouseBtn::index_injective(a, b);
            }
        },
        _ => {},
    }
}

/// A press edge reads `JustPressed` during its own frame and `Pressed` on
/// every later frame until the next edge; a release edge reads `JustReleased`
/// and then `Released`. The state before the edge does not matter.
pub proof fn edge_then_decay(s: InputView, button: Button, is_pressed: bool, frames: nat)
    requires
        s.wf(),
    ensures
        s.with_edge(button, is_pressed).button(button) == KeyState::edge(is_pressed),
        frames >= 1 ==> s.with_edge(button, is_pressed).decayed_by(frames).button(button) == (if is_pressed {
            KeyState::Pressed
        } else {
            KeyState::Released
        }),
{
    let after = s.with_edge(button, is_pressed);
    match button {
        Button::Key(key) => key.index_in_range(),
        Button::Mouse(btn) => {},
    }
    decay_acts_per_button(after, button, frames);
    KeyState::edge_then_decay_sequence(is_pressed, frames);
}

/// A press followed, any number of frames later, by a release walks through
/// `JustPressed`, `Pressed`, `JustReleased`, `Released` in that order, with no
/// state skipped or repeated out of turn.
pub proof fn press_hold_release(s: InputView, button: Button, held: nat, after: nat)
    requires
        s.wf(),
        held >= 1,
        after >= 1,
    ensures
        s.with_edge(button, true).button(button) == KeyState::JustPressed,
        s.with_edge(button, true).decayed_by(held).button(button) == KeyState::Pressed,
        s.with_edge(button, true).decayed_by(held).with_edge(button, false).button(button)
            == KeyState::JustReleased,
        s.with_edge(button, true).decayed_by(held).with_edge(button, false).decayed_by(
            after,
        ).button(button) == KeyState::Released,
{
    edge_then_decay(s, button, true, held);
    let pressed = s.with_edge(button, true);
    match button {
        Button::Key(key) => key.index_in_range(),
        Button::Mouse(btn) => {},
    }
    decay_acts_per_button(pressed, button, held);
    edge_then_decay(pressed.decayed_by(held), button, false, after);
}

/// After a run of raw input the cursor motion is the latest cursor sample of
/// the run, and what it was before the run if the run holds none. The same
/// holds of the scroll motion.
pub proof fn motion_is_latest_sample(s: InputView, raws: Seq<RawInput>)
    ensures
        s.with_all_raw(raws).cursor_delta == (match latest_cursor(raws) {
            Some(delta) => delta,
            None => s.cursor_delta,
        }),
        s.with_all_raw(raws).scroll_delta == (match latest_scroll(raws) {
            Some(delta) => delta,
            None => s.scroll_delta,
        }),
    decreases raws.len(),
{
    if raws.len() > 0 {
        motion_is_latest_sample(s, raws.drop_last());
    }
}

/// The motion read during a frame is the latest sample delivered since the
/// previous decay step, and exactly zero if none was delivered.
pub proof fn motion_is_this_frames_only(s: InputView, raws: Seq<RawInput>)
    ensures
        s.decayed().cursor_delta == Delta::spec_zero(),
        s.decayed().scroll_delta == Delta::spec_zero(),
        s.decayed().with_all_raw(raws).cursor_delta == (match latest_cursor(raws) {
            Some(delta) => delta,
            None => Delta::spec_zero(),
        }),
        s.decayed().with_all_raw(raws).scroll_delta == (match latest_scroll(raws) {
            Some(delta) => delta,
            None => Delta::spec_zero(),
        }),
{
    motion_is_latest_sample(s.decayed(), raws);
}

/// Of two samples in a row the later one wins.
pub proof fn last_sample_wins(s: InputView, first: Delta, second: Delta)
    ensures
        s.with_cursor_delta(first).with_cursor_delta(second) == s.with_cursor_delta(second),
        s.with_scroll_delta(first).with_scroll_delta(second) == s.with_scroll_delta(second),
{
}

/// A modifier report fires an edge only on a level change: a second report of
/// the same levels changes nothing.
pub proof fn modifiers_do_not_double_fire(s: InputView, mods: Modifiers)
    ensures
        s.with_modifiers(mods).with_modifiers(mods) == s.with_modifiers(mods),
{
}

/// A modifier report leaves every physical key and every mouse button as it
/// was: the synthetic modifier keys are the only ones it drives.
pub proof fn modifiers_touch_synthetic_keys_only(s: InputView, mods: Modifiers, button: Button)
    requires
        s.wf(),
        button != Button::Key(Key::Shift),
        button != Button::Key(Key::Ctrl),
        button != Button::Key(Key::Alt),
        button != Button::Key(Key::Logo),
    ensures
        s.with_modifiers(mods).button(button) == s.button(button),
{
    let prev = s.modifiers;
    let a = s.with_level(Key::Shift, prev.shift, mods.shift);
    let b = a.with_level(Key::Ctrl, prev.ctrl, mods.ctrl);
    let c = b.with_level(Key::Alt, prev.alt, mods.alt);
    let d = c.with_level(Key::Logo, prev.logo, mods.logo);
    if prev.shift != mods.shift {
        edge_touches_one_button(s, Button::Key(Key::Shift), mods.shift, button);
    }
    if prev.ctrl != mods.ctrl {
        edge_touches_one_button(a, Button::Key(Key::Ctrl), mods.ctrl, button);
    }
    if prev.alt != mods.alt {
        edge_touches_one_button(b, Button::Key(Key::Alt), mods.alt, button);
    }
    if prev.logo != mods.logo {
        edge_touches_one_button(c, Button::Key(Key::Logo), mods.logo, button);
    }
}

/// A raw physical key edge never drives a synthetic modifier key.
pub proof fn raw_keys_do_not_drive_modifiers(
    s: InputView,
    key: RawKey,
    is_pressed: bool,
)
    requires
        s.wf(),
    ensures
        s.with_raw_key(key, is_pressed).key(Key::Shift) == s.key(Key::Shift),
        s.with_raw_key(key, is_pressed).key(Key::Ctrl) == s.key(Key::Ctrl),
        s.with_raw_key(key, is_pressed).key(Key::Alt) == s.key(Key::Alt),
        s.with_raw_key(key, is_pressed).key(Key::Logo) == s.key(Key::Logo),
{
    match key.spec_key() {
        Some(k) => {
            Key::from_repr_inverts_index(key->Code_0);
        },
        None => {},
    }
}

/// One thing that happens to the button state machine: a piece of raw input,
/// or the decay step at the end of a frame.
pub enum InputOp {
    Raw(RawInput),
    Decay,
}

/// Whether a piece of raw input may carry an edge for `button`: a physical
/// key or mouse button edge that names it, or any modifier report if it is
/// one of the synthetic modifier keys.
pub open spec fn may_drive(raw: RawInput, button: Button) -> bool {
    match raw {
        RawInput::Key(key, _) => key.spec_key().is_some() && button == Button::Key(
            key.spec_key().unwrap(),
        ),
        RawInput::MouseButton(_, raw_button) => raw_button.spec_button().is_some() && button
            == Button::Mouse(raw_button.spec_button().unwrap()),
        RawInput::Modifiers(_) => button == Button::Key(Key::Shift) || button == Button::Key(
            Key::Ctrl,
        ) || button == Button::Key(Key::Alt) || button == Button::Key(Key::Logo),
        RawInput::CursorMotion(_) => false,
        RawInput::Scroll(_) => false,
    }
}

impl InputView {
    /// The state after one thing has happened.
    pub open spec fn after_op(self, op: InputOp) -> InputView {
        match op {
            InputOp::Raw(raw) => self.with_raw(raw),
            InputOp::Decay => self.decayed(),
        }
    }

    /// The state after a run of things has happened, oldest first.
    pub open spec fn after_ops(self, ops: Seq<InputOp>) -> InputView
        decreases ops.len(),
    {
        if ops.len() == 0 {
            self
        } else {
            self.after_ops(ops.drop_last()).after_op(ops.last())
        }
    }
}

/// The number of decay steps in a run.
pub open spec fn decays_in(ops: Seq<InputOp>) -> nat
    decreases ops.len(),
{
    if ops.len() == 0 {
        0
    } else {
        decays_in(ops.drop_last()) + (if ops.last() == InputOp::Decay {
            1nat
        } else {
            0nat
        })
    }
}

/// No raw input in the run may carry an edge for `button`.
pub open spec fn run_spares(ops: Seq<InputOp>, button: Button) -> bool {
    forall|i: int|
        0 <= i < ops.len() ==> match #[trigger] ops[i] {
            InputOp::Raw(raw) => !may_drive(raw, button),
            InputOp::Decay => true,
        }
}

/// Raw input that cannot carry an edge for a button leaves that button as it
/// was.
pub proof fn sparing_input_keeps_button(s: InputView, raw: RawInput, button: Button)
    requires
        s.wf(),
        !may_drive(raw, button),
    ensures
        s.with_raw(raw).button(button) == s.button(button),
{
    match raw {
        RawInput::Key(key, is_pressed) => {
            if key.spec_key().is_some() {
                edge_touches_one_button(
                    s,
                    Button::Key(key.spec_key().unwrap()),
                    is_pressed,
                    button,
                );
            }
        },
        RawInput::MouseButton(is_pressed, raw_button) => {
            if raw_button.spec_button().is_some() {
                edge_touches_one_button(
                    s,
                    Button::Mouse(raw_button.spec_button().unwrap()),
                    is_pressed,
                    button,
                );
            }
        },
        RawInput::Modifiers(mods) => {
            modifiers_touch_synthetic_keys_only(s, mods, button);
        },
        _ => {},
    }
}

/// Decaying a state `n` times and then once more is decaying it `n + 1` times.
pub proof fn decay_once_more(state: KeyState, n: nat)
    ensures
        state.decayed_by(n).decayed() == state.decayed_by(n + 1),
    decreases n,
{
    if n > 0 {
        decay_once_more(state.decayed(), (n - 1) as nat);
        assert(state.decayed_by(n + 1) == state.decayed().decayed_by(n)) by {
            assert(((n + 1) - 1) as nat == n);
        }
    } else {
        assert(state.decayed_by(1) == state.decayed().decayed_by(0));
    }
}

/// Whatever else happens, a button that gets no further edge only decays: its
/// state after a run that spares it is its state before, decayed once for
/// each decay step of the run.
pub proof fn spared_button_only_decays(s: InputView, ops: Seq<InputOp>, button: Button)
    requires
        s.wf(),
        run_spares(ops, button),
    ensures
        s.after_ops(ops).wf(),
        s.after_ops(ops).button(button) == s.button(button).decayed_by(decays_in(ops)),
    decreases ops.len(),
{
    if ops.len() > 0 {
        let before = ops.drop_last();
        assert forall|i: int| 0 <= i < before.len() implies match #[trigger] before[i] {
            InputOp::Raw(raw) => !may_drive(raw, button),
            InputOp::Decay => true,
        } by {
            assert(before[i] == ops[i]);
        }
        spared_button_only_decays(s, before, button);
        let mid = s.after_ops(before);
        assert(ops.last() == ops[ops.len() - 1]);
        match ops.last() {
            InputOp::Raw(raw) => {
                raw_input_keeps_tables(mid, raw);
                sparing_input_keeps_button(mid, raw, button);
            },
            InputOp::Decay => {
                decay_acts_per_button(mid, button, 1);
                assert(mid.decayed_by(1) == mid.decayed()) by {
                    assert(mid.decayed().decayed_by(0) == mid.decayed());
                }
                assert(mid.button(button).decayed_by(1) == mid.button(button).decayed()) by {
                    assert(mid.button(button).decayed().decayed_by(0) == mid.button(
                        button,
                    ).decayed());
                }
                decay_once_more(s.button(button), decays_in(before));
            },
        }
    }
}

/// A press edge on a button, followed by any run of input and decay steps
/// that holds no further edge for it, reads `JustPressed` until the first
/// decay step and `Pressed` from then on; a release edge reads `JustReleased`
/// and then `Released`.
pub proof fn edge_then_anything_else(
    s: InputView,
    button: Button,
    is_pressed: bool,
    ops: Seq<InputOp>,
)
    requires
        s.wf(),
        run_spares(ops, button),
    ensures
        decays_in(ops) == 0 ==> s.with_edge(button, is_pressed).after_ops(ops).button(button)
            == KeyState::edge(is_pressed),
        decays_in(ops) >= 1 ==> s.with_edge(button, is_pressed).after_ops(ops).button(button) == (
        if is_pressed {
            KeyState::Pressed
        } else {
            KeyState::Released
        }),
{
    let after = s.with_edge(button, is_pressed);
    match button {
        Button::Key(key) => key.index_in_range(),
        Button::Mouse(btn) => {},
    }
    spared_button_only_decays(after, ops, button);
    KeyState::edge_then_decay_sequence(is_pressed, decays_in(ops));
}

} // verus!
