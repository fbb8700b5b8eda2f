//! The button state machine: edge-triggered state for every key and mouse
//! button, this frame's cursor and scroll motion, and the ordered log of this
//! frame's button transitions.

use vstd::prelude::*;
use crate::key_state::KeyState;
use crate::keys::{Key, MouseBtn, KEY_COUNT, MOUSE_BTN_COUNT};

verus! {

/// Number of keys that a physical key code can name: every [`Key`] before the
/// synthetic modifiers. The synthetic modifiers are driven by
/// [`RenoirInput::set_mods`] alone.
pub const PHYSICAL_KEY_COUNT: usize = 194;

/// A logical button: a keyboard key or a mouse button.
#[derive(Clone, Copy, PartialEq, Eq, Structural, Debug)]
pub enum Button {
    Key(Key),
    Mouse(MouseBtn),
}

/// A physical key as the host reports it: the position of its code among the
/// physical keys, or a code the host could not identify.
#[derive(Clone, Copy, PartialEq, Eq, Structural, Debug)]
pub enum RawKey {
    Code(usize),
    Unidentified,
}

/// A mouse button as the host reports it. `Other` carries the host's number
/// for a button this crate keeps no state for.
#[derive(Clone, Copy, PartialEq, Eq, Structural, Debug)]
pub enum RawMouseButton {
    Left,
    Right,
    Middle,
    Back,
    Forward,
    Other(u16),
}

/// The levels of the four modifiers as the host reports them.
#[derive(Clone, Copy, PartialEq, Eq, Structural, Debug)]
pub struct Modifiers {
    pub shift: bool,
    pub ctrl: bool,
    pub alt: bool,
    pub logo: bool,
}

/// A two-dimensional motion sample. Each component is the IEEE 754
/// single-precision bit pattern of the motion along that axis, so that the
/// sample is carried through exactly as the host delivered it.
#[derive(Clone, Copy, PartialEq, Eq, Structural, Debug)]
pub struct Delta {
    pub x: u32,
    pub y: u32,
}

/// One piece of raw input from the host.
#[derive(Clone, Copy, PartialEq, Eq, Structural, Debug)]
pub enum RawInput {
    /// A physical key went down (`true`) or up (`false`).
    Key(RawKey, bool),
    /// The modifier levels changed.
    Modifiers(Modifiers),
    /// A mouse button went down (`true`) or up (`false`).
    MouseButton(bool, RawMouseButton),
    /// The cursor moved.
    CursorMotion(Delta),
    /// The wheel scrolled.
    Scroll(Delta),
}

impl Modifiers {
    /// No modifier is active.
    pub open spec fn spec_empty() -> Modifiers {
        Modifiers { shift: false, ctrl: false, alt: false, logo: false }
    }

    /// No modifier is active.
    pub fn empty() -> (mods: Self)
        ensures
            mods == Modifiers::spec_empty(),
    {
        Modifiers { shift: false, ctrl: false, alt: false, logo: false }
    }
}

impl Delta {
    /// No motion: positive zero along both axes.
    pub open spec fn spec_zero() -> Delta {
        Delta { x: 0, y: 0 }
    }

    /// No motion: positive zero along both axes.
    pub fn zero() -> (delta: Self)
        ensures
            delta == Delta::spec_zero(),
    {
        Delta { x: 0, y: 0 }
    }
}

impl RawMouseButton {
    /// The button this crate keeps state for, if any.
    pub open spec fn spec_button(self) -> Option<MouseBtn> {
        match self {
            RawMouseButton::Left => Some(MouseBtn::Left),
            RawMouseButton::Right => Some(MouseBtn::Right),
            RawMouseButton::Middle => Some(MouseBtn::Middle),
            RawMouseButton::Back => Some(MouseBtn::Back),
            RawMouseButton::Forward => Some(MouseBtn::Forward),
            RawMouseButton::Other(_) => None,
        }
    }

    /// The button this crate keeps state for, if any.
    pub fn button(self) -> (btn: Option<MouseBtn>)
        ensures
            btn == self.spec_button(),
    {
        match self {
            RawMouseButton::Left => Some(MouseBtn::Left),
            RawMouseButton::Right => Some(MouseBtn::Right),
            RawMouseButton::Middle => Some(MouseBtn::Middle),
            RawMouseButton::Back => Some(MouseBtn::Back),
            RawMouseButton::Forward => Some(MouseBtn::Forward),
            RawMouseButton::Other(_) => None,
        }
    }
}

impl RawKey {
    /// The key that a physical key code names. Unidentified codes and codes
    /// past the physical keys name none.
    pub open spec fn spec_key(self) -> Option<Key> {
        match self {
            RawKey::Code(code) => if code < PHYSICAL_KEY_COUNT {
                Key::spec_from_repr(code)
            } else {
                None
            },
            RawKey::Unidentified => None,
        }
    }

    /// The key that a physical key code names, if any.
    pub fn key(self) -> (key: Option<Key>)
        ensures
            key == self.spec_key(),
    {
        match self {
            RawKey::Code(code) => if code < PHYSICAL_KEY_COUNT {
                Key::from_repr(code)
            } else {
                None
            },
            RawKey::Unidentified => None,
        }
    }
}

/// The mathematical content of a [`RenoirInput`].
pub struct InputView {
    /// State of each key, by [`Key::spec_index`].
    pub keys: Seq<KeyState>,
    /// State of each mouse button, by [`MouseBtn::spec_index`].
    pub buttons: Seq<KeyState>,
    /// This frame's cursor motion.
    pub cursor_delta: Delta,
    /// This frame's scroll motion.
    pub scroll_delta: Delta,
    /// This frame's button transitions, oldest first.
    pub key_stream: Seq<(Button, KeyState)>,
    /// The modifier levels last reported by the host.
    pub modifiers: Modifiers,
}

impl InputView {
    /// Both tables have a slot for every button.
    pub open spec fn wf(self) -> bool {
        &&& self.keys.len() == KEY_COUNT
        &&& self.buttons.len() == MOUSE_BTN_COUNT
    }

    /// Everything released, no motion, nothing logged, no modifier active.
    pub open spec fn initial() -> InputView {
        InputView {
            keys: Seq::new(KEY_COUNT as nat, |i: int| KeyState::Released),
            buttons: Seq::new(MOUSE_BTN_COUNT as nat, |i: int| KeyState::Released),
            cursor_delta: Delta::spec_zero(),
            scroll_delta: Delta::spec_zero(),
            key_stream: Seq::empty(),
            modifiers: Modifiers::spec_empty(),
        }
    }

    /// The state of a key.
    pub open spec fn key(self, key: Key) -> KeyState {
        self.keys[key.spec_index() as int]
    }

    /// The state of a mouse button.
    pub open spec fn mouse_btn(self, btn: MouseBtn) -> KeyState {
        self.buttons[btn.spec_index() as int]
    }

    /// The state of a button of either kind.
    pub open spec fn button(self, button: Button) -> KeyState {
        match button {
            Button::Key(key) => self.key(key),
            Button::Mouse(btn) => self.mouse_btn(btn),
        }
    }

    /// A raw edge on `button`: its state becomes the edge state, whatever it
    /// was, and the transition is appended to the log.
    pub open spec fn with_edge(self, button: Button, is_pressed: bool) -> InputView {
        let state = KeyState::edge(is_pressed);
        let key_stream = self.key_stream.push((button, state));
        match button {
            Button::Key(key) => InputView {
                keys: self.keys.update(key.spec_index() as int, state),
                key_stream,
                ..self
            },
            Button::Mouse(btn) => InputView {
                buttons: self.buttons.update(btn.spec_index() as int, state),
                key_stream,
                ..self
            },
        }
    }

    /// A modifier level signal on the synthetic key `key`: an edge when the
    /// level differs from the previous one, nothing otherwise.
    pub open spec fn with_level(self, key: Key, was_active: bool, is_active: bool) -> InputView {
        if was_active != is_active {
            self.with_edge(Button::Key(key), is_active)
        } else {
            self
        }
    }

    /// A report of the modifier levels: each of the four synthetic modifier
    /// keys gets an edge if its level changed, in the order Shift, Ctrl, Alt,
    /// Logo, and the levels are remembered.
    pub open spec fn with_modifiers(self, mods: Modifiers) -> InputView {
        let prev = self.modifiers;
        let next = self.with_level(Key::Shift, prev.shift, mods.shift).with_level(
            Key::Ctrl,
            prev.ctrl,
            mods.ctrl,
        ).with_level(Key::Alt, prev.alt, mods.alt).with_level(Key::Logo, prev.logo, mods.logo);
        InputView { modifiers: mods, ..next }
    }

    /// A raw physical key edge: an edge on the key it names, nothing if it
    /// names none.
    pub open spec fn with_raw_key(self, key: RawKey, is_pressed: bool) -> InputView {
        match key.spec_key() {
            Some(key) => self.with_edge(Button::Key(key), is_pressed),
            None => self,
        }
    }

    /// A raw mouse button edge: an edge on the button it names, nothing if it
    /// names none.
    pub open spec fn with_raw_mouse_button(
        self,
        is_pressed: bool,
        button: RawMouseButton,
    ) -> InputView {
        match button.spec_button() {
            Some(btn) => self.with_edge(Button::Mouse(btn), is_pressed),
            None => self,
        }
    }

    /// A cursor motion sample replaces this frame's cursor motion.
    pub open spec fn with_cursor_delta(self, delta: Delta) -> InputView {
        InputView { cursor_delta: delta, ..self }
    }

    /// A scroll sample replaces this frame's scroll motion.
    pub open spec fn with_scroll_delta(self, delta: Delta) -> InputView {
        InputView { scroll_delta: delta, ..self }
    }

    /// One piece of raw input.
    pub open spec fn with_raw(self, raw: RawInput) -> InputView {
        match raw {
            RawInput::Key(key, is_pressed) => self.with_raw_key(key, is_pressed),
            RawInput::Modifiers(mods) => self.with_modifiers(mods),
            RawInput::MouseButton(is_pressed, button) => self.with_raw_mouse_button(
                is_pressed,
                button,
            ),
            RawInput::CursorMotion(delta) => self.with_cursor_delta(delta),
            RawInput::Scroll(delta) => self.with_scroll_delta(delta),
        }
    }

    /// A run of raw input, oldest first.
    pub open spec fn with_all_raw(self, raws: Seq<RawInput>) -> InputView
        decreases raws.len(),
    {
        if raws.len() == 0 {
            self
        } else {
            self.with_all_raw(raws.drop_last()).with_raw(raws.last())
        }
    }

    /// The once-per-frame decay step: every button's edge state settles, the
    /// motion is zeroed and the log is cleared. The modifier levels stay.
    pub open spec fn decayed(self) -> InputView {
        InputView {
            keys: Seq::new(self.keys.len(), |i: int| self.keys[i].decayed()),
            buttons: Seq::new(self.buttons.len(), |i: int| self.buttons[i].decayed()),
            cursor_delta: Delta::spec_zero(),
            scroll_delta: Delta::spec_zero(),
            key_stream: Seq::empty(),
            modifiers: self.modifiers,
        }
    }

    /// `frames` decay steps in a row.
    pub open spec fn decayed_by(self, frames: nat) -> InputView
        decreases frames,
    {
        if frames == 0 {
            self
        } else {
            self.decayed().decayed_by((frames - 1) as nat)
        }
    }
}

/// The latest cursor motion sample in a run of raw input, if it holds one.
pub open spec fn latest_cursor(raws: Seq<RawInput>) -> Option<Delta>
    decreases raws.len(),
{
    if raws.len() == 0 {
        None
    } else {
        match raws.last() {
            RawInput::CursorMotion(delta) => Some(delta),
            _ => latest_cursor(raws.drop_last()),
        }
    }
}

/// The latest scroll sample in a run of raw input, if it holds one.
pub open spec fn latest_scroll(raws: Seq<RawInput>) -> Option<Delta>
    decreases raws.len(),
{
    if raws.len() == 0 {
        None
    } else {
        match raws.last() {
            RawInput::Scroll(delta) => Some(delta),
            _ => latest_scroll(raws.drop_last()),
        }
    }
}

/// Mouse button states and this frame's cursor and scroll motion.
pub struct MouseState {
    buttons: [KeyState; MOUSE_BTN_COUNT],
    cursor_delta: Delta,
    scroll_delta: Delta,
}

/// The button state machine.
///
/// The host forwards raw input through the setters; the frame callback reads
/// it through the queries; [`RenoirInput::update`] runs once per frame after
/// the callback.
pub struct RenoirInput {
    keys: [KeyState; KEY_COUNT],
    key_stream: Vec<(Button, KeyState)>,
    prev_modifiers_state: Modifiers,
    mouse: MouseState,
}

impl View for RenoirInput {
    type V = InputView;

    closed spec fn view(&self) -> InputView {
        InputView {
            keys: self.keys@,
            buttons: self.mouse.buttons@,
            cursor_delta: self.mouse.cursor_delta,
            scroll_delta: self.mouse.scroll_delta,
            key_stream: self.key_stream@,
            modifiers: self.prev_modifiers_state,
        }
    }
}

impl MouseState {
    fn new() -> (mouse: Self)
        ensures
            mouse.buttons@ =~= Seq::new(MOUSE_BTN_COUNT as nat, |i: int| KeyState::Released),
            mouse.cursor_delta == Delta::spec_zero(),
            mouse.scroll_delta == Delta::spec_zero(),
    {
        broadcast use vstd::array::group_array_axioms;

        MouseState {
            buttons: [KeyState::Released;MOUSE_BTN_COUNT],
            cursor_delta: Delta::zero(),
            scroll_delta: Delta::zero(),
        }
    }

    fn update(&mut self)
        ensures
            final(self).buttons@ =~= Seq::new(
                MOUSE_BTN_COUNT as nat,
                |i: int| old(self).buttons@[i].decayed(),
            ),
            final(self).cursor_delta == Delta::spec_zero(),
            final(self).scroll_delta == Delta::spec_zero(),
    {
        broadcast use vstd::array::group_array_axioms;

        let mut i: usize = 0;
        while i < MOUSE_BTN_COUNT
            invariant
                i <= MOUSE_BTN_COUNT,
                forall|j: int| 0 <= j < i ==> self.buttons@[j] == old(self).buttons@[j].decayed(),
                forall|j: int|
                    i <= j < MOUSE_BTN_COUNT ==> self.buttons@[j] == old(self).buttons@[j],
            decreases MOUSE_BTN_COUNT - i,
        {
            let next = self.buttons[i].update();
            self.buttons[i] = next;
            i += 1;
        }
        self.cursor_delta = Delta::zero();
        self.scroll_delta = Delta::zero();
    }
}

impl RenoirInput {
    /// Every button released, no motion, nothing logged, no modifier active.
    pub fn new() -> (input: Self)
        ensures
            input@ == InputView::initial(),
            input@.wf(),
    {
        broadcast use vstd::array::group_array_axioms;

        let input = RenoirInput {
            keys: [KeyState::Released;KEY_COUNT],
            key_stream: Vec::new(),
            prev_modifiers_state: Modifiers::empty(),
            mouse: MouseState::new(),
        };
        assert(input@.keys =~= InputView::initial().keys);
        assert(input@.key_stream =~= InputView::initial().key_stream);
        input
    }

    /// The tables of a button state machine always have a slot for every button.
    pub proof fn well_formed(&self)
        ensures
            self@.wf(),
    {
        broadcast use vstd::array::group_array_axioms;

    }

    /// The once-per-frame decay step. Runs after the frame callback, so that
    /// the callback sees every edge of its frame.
    pub fn update(&mut self)
        ensures
            final(self)@ == old(self)@.decayed(),
    {
        broadcast use vstd::array::group_array_axioms;

        self.mouse.update();
        let mut i: usize = 0;
        while i < KEY_COUNT
            invariant
                i <= KEY_COUNT,
                forall|j: int| 0 <= j < i ==> self.keys@[j] == old(self).keys@[j].decayed(),
                forall|j: int| i <= j < KEY_COUNT ==> self.keys@[j] == old(self).keys@[j],
                self.mouse.buttons@ =~= Seq::new(
                    MOUSE_BTN_COUNT as nat,
                    |i: int| old(self).mouse.buttons@[i].decayed(),
                ),
                self.mouse.cursor_delta == Delta::spec_zero(),
                self.mouse.scroll_delta == Delta::spec_zero(),
                self.key_stream == old(self).key_stream,
                self.prev_modifiers_state == old(self).prev_modifiers_state,
            decreases KEY_COUNT - i,
        {
            let next = self.keys[i].update();
            self.keys[i] = next;
            i += 1;
        }
        self.key_stream.clear();
        assert(self@.keys =~= old(self)@.decayed().keys);
        assert(self@.buttons =~= old(self)@.decayed().buttons);
        assert(self@.key_stream =~= old(self)@.decayed().key_stream);
    }

    /// Records a raw edge on a button: its state becomes `JustPressed` or
    /// `JustReleased`, whatever it was, and the transition is logged.
    pub fn set_edge(&mut self, button: Button, is_pressed: bool)
        ensures
            final(self)@ == old(self)@.with_edge(button, is_pressed),
    {
        broadcast use vstd::array::group_array_axioms;

        let state = KeyState::from_level(is_pressed);
        match button {
            Button::Key(key) => {
                let i = key.index();
                self.keys[i] = state;
            },
            Button::Mouse(btn) => {
                let i = btn.index();
                self.mouse.buttons[i] = state;
            },
        }
        self.key_stream.push((button, state));
        assert(self@.keys =~= old(self)@.with_edge(button, is_pressed).keys);
        assert(self@.buttons =~= old(self)@.with_edge(button, is_pressed).buttons);
    }

    /// Records a raw physical key edge. A code that names no key is dropped.
    pub fn set_key(&mut self, key: RawKey, is_pressed: bool)
        ensures
            final(self)@ == old(self)@.with_raw_key(key, is_pressed),
    {
        match key.key() {
            Some(key) => self.set_edge(Button::Key(key), is_pressed),
            None => {},
        }
    }

    /// Takes a report of the modifier levels and fires an edge on each
    /// synthetic modifier key whose level changed since the previous report.
    pub fn set_mods(&mut self, mods: Modifiers)
        ensures
            final(self)@ == old(self)@.with_modifiers(mods),
    {
        let prev = self.prev_modifiers_state;
        if mods.shift != prev.shift {
            self.set_edge(Button::Key(Key::Shift), mods.shift);
        }
        if mods.ctrl != prev.ctrl {
            self.set_edge(Button::Key(Key::Ctrl), mods.ctrl);
        }
        if mods.alt != prev.alt {
            self.set_edge(Button::Key(Key::Alt), mods.alt);
        }
        if mods.logo != prev.logo {
            self.set_edge(Button::Key(Key::Logo), mods.logo);
        }
        self.prev_modifiers_state = mods;
    }

    /// Records a raw mouse button edge. A button that this crate keeps no
    /// state for is dropped.
    pub fn set_mouse_button(&mut self, is_pressed: bool, button: RawMouseButton)
        ensures
            final(self)@ == old(self)@.with_raw_mouse_button(is_pressed, button),
    {
        match button.button() {
            Some(btn) => self.set_edge(Button::Mouse(btn), is_pressed),
            None => {},
        }
    }

    /// Replaces this frame's cursor motion with a new sample.
    pub fn set_cursor_delta(&mut self, delta: Delta)
        ensures
            final(self)@ == old(self)@.with_cursor_delta(delta),
    {
        self.mouse.cursor_delta = delta;
    }

    /// Replaces this frame's scroll motion with a new sample.
    pub fn set_scroll_delta(&mut self, delta: Delta)
        ensures
            final(self)@ == old(self)@.with_scroll_delta(delta),
    {
        self.mouse.scroll_delta = delta;
    }

    /// Forwards one piece of raw input to the setter it belongs to.
    pub fn process_events(&mut self, raw: RawInput)
        ensures
            final(self)@ == old(self)@.with_raw(raw),
    {
        match raw {
            RawInput::Key(key, is_pressed) => self.set_key(key, is_pressed),
            RawInput::Modifiers(mods) => self.set_mods(mods),
            RawInput::MouseButton(is_pressed, button) => self.set_mouse_button(is_pressed, button),
            RawInput::CursorMotion(delta) => self.set_cursor_delta(delta),
            RawInput::Scroll(delta) => self.set_scroll_delta(delta),
        }
    }

    pub fn get_key(&self, key: Key) -> (state: KeyState)
        ensures
            state == self@.key(key),
    {
        broadcast use vstd::array::group_array_axioms;

        self.keys[key.index()]
    }

    pub fn pressed(&self, key: Key) -> (down: bool)
        ensures
            down == self@.key(key).is_down(),
    {
        self.get_key(key).pressed()
    }

    pub fn just_pressed(&self, key: Key) -> (yes: bool)
        ensures
            yes == (self@.key(key) == KeyState::JustPressed),
    {
        self.get_key(key).just_pressed()
    }

    pub fn released(&self, key: Key) -> (up: bool)
        ensures
            up == !self@.key(key).is_down(),
    {
        self.get_key(key).released()
    }

    pub fn just_released(&self, key: Key) -> (yes: bool)
        ensures
            yes == (self@.key(key) == KeyState::JustReleased),
    {
        self.get_key(key).just_released()
    }

    pub fn get_mouse_btn(&self, btn: MouseBtn) -> (state: KeyState)
        ensures
            state == self@.mouse_btn(btn),
    {
        broadcast use vstd::array::group_array_axioms;

        self.mouse.buttons[btn.index()]
    }

    pub fn mouse_pressed(&self, btn: MouseBtn) -> (down: bool)
        ensures
            down == self@.mouse_btn(btn).is_down(),
    {
        self.get_mouse_btn(btn).pressed()
    }

    pub fn mouse_just_pressed(&self, btn: MouseBtn) -> (yes: bool)
        ensures
            yes == (self@.mouse_btn(btn) == KeyState::JustPressed),
    {
        self.get_mouse_btn(btn).just_pressed()
    }

    pub fn mouse_released(&self, btn: MouseBtn) -> (up: bool)
        ensures
            up == !self@.mouse_btn(btn).is_down(),
    {
        self.get_mouse_btn(btn).released()
    }

    pub fn mouse_just_released(&self, btn: MouseBtn) -> (yes: bool)
        ensures
            yes == (self@.mouse_btn(btn) == KeyState::JustReleased),
    {
        self.get_mouse_btn(btn).just_released()
    }

    /// This frame's cursor motion: the latest sample since the last decay step.
    pub fn get_mouse_delta(&self) -> (delta: Delta)
        ensures
            delta == self@.cursor_delta,
    {
        self.mouse.cursor_delta
    }

    /// This frame's scroll motion: the latest sample since the last decay step.
    pub fn get_scroll_delta(&self) -> (delta: Delta)
        ensures
            delta == self@.scroll_delta,
    {
        self.mouse.scroll_delta
    }

    /// This frame's button transitions, oldest first.
    pub fn key_stream(&self) -> (stream: &Vec<(Button, KeyState)>)
        ensures
            stream@ == self@.key_stream,
    {
        &self.key_stream
    }
}

impl Default for RenoirInput {
    fn default() -> (input: Self)
        ensures
            input@ == InputView::initial(),
    {
        RenoirInput::new()
    }
}

} // verus!
