//! Edge-triggered state of a single button.

use vstd::prelude::*;

verus! {

/// State of a keyboard key or mouse button. `JustPressed` and `JustReleased`
/// mean that the state changed since the last frame was processed.
#[derive(Clone, Copy, PartialEq, Eq, Structural, Debug)]
pub enum KeyState {
    JustPressed,
    Pressed,
    JustReleased,
    Released,
}

impl KeyState {
    /// The button is held down, whether or not it went down this frame.
    pub open spec fn is_down(self) -> bool {
        self == KeyState::JustPressed || self == KeyState::Pressed
    }

    /// The state one frame later when no new edge arrives: an edge state
    /// settles into its steady state, a steady state stays.
    pub open spec fn decayed(self) -> KeyState {
        match self {
            KeyState::JustPressed => KeyState::Pressed,
            KeyState::Pressed => KeyState::Pressed,
            KeyState::JustReleased => KeyState::Released,
            KeyState::Released => KeyState::Released,
        }
    }

    /// The edge state that a raw press or release level produces.
    pub open spec fn edge(is_pressed: bool) -> KeyState {
        if is_pressed {
            KeyState::JustPressed
        } else {
            KeyState::JustReleased
        }
    }

    /// The state `frames` decay steps later when no new edge arrives.
    pub open spec fn decayed_by(self, frames: nat) -> KeyState
        decreases frames,
    {
        if frames == 0 {
            self
        } else {
            self.decayed().decayed_by((frames - 1) as nat)
        }
    }

    pub fn pressed(&self) -> (down: bool)
        ensures
            down == self.is_down(),
    {
        *self == KeyState::JustPressed || *self == KeyState::Pressed
    }

    pub fn just_pressed(&self) -> (yes: bool)
        ensures
            yes == (*self == KeyState::JustPressed),
    {
        *self == KeyState::JustPressed
    }

    pub fn released(&self) -> (up: bool)
        ensures
            up == !self.is_down(),
    {
        *self == KeyState::JustReleased || *self == KeyState::Released
    }

    pub fn just_released(&self) -> (yes: bool)
        ensures
            yes == (*self == KeyState::JustReleased),
    {
        *self == KeyState::JustReleased
    }

    /// The once-per-frame decay step of one button.
    pub fn update(&self) -> (next: Self)
        ensures
            next == self.decayed(),
    {
        match self {
            KeyState::JustPressed => KeyState::Pressed,
            KeyState::Pressed => KeyState::Pressed,
            KeyState::JustReleased => KeyState::Released,
            KeyState::Released => KeyState::Released,
        }
    }

    /// The edge state for a raw press (`true`) or release (`false`).
    pub fn from_level(is_pressed: bool) -> (state: Self)
        ensures
            state == KeyState::edge(is_pressed),
    {
        if is_pressed {
            KeyState::JustPressed
        } else {
            KeyState::JustReleased
        }
    }

    /// A decay step never changes whether the button is held down.
    pub proof fn decay_keeps_level(self)
        ensures
            self.decayed().is_down() == self.is_down(),
    {
    }

    /// Decay is idempotent: after one step the state is steady.
    pub proof fn decay_settles(self, frames: nat)
        requires
            frames >= 1,
        ensures
            self.decayed_by(frames) == self.decayed(),
        decreases frames,
    {
        if frames > 1 {
            self.decayed().decay_settles((frames - 1) as nat);
            assert(self.decayed().decayed() == self.decayed());
        } else {
            assert(self.decayed().decayed_by(0) == self.decayed());
        }
    }

    /// A raw press edge followed by any number of decay steps reads
    /// `JustPressed` at once and `Pressed` on every later frame; a release edge
    /// reads `JustReleased` and then `Released`.
    pub proof fn edge_then_decay_sequence(is_pressed: bool, frames: nat)
        ensures
            KeyState::edge(is_pressed).decayed_by(0) == KeyState::edge(is_pressed),
            frames >= 1 && is_pressed ==> KeyState::edge(is_pressed).decayed_by(frames)
                == KeyState::Pressed,
            frames >= 1 && !is_pressed ==> KeyState::edge(is_pressed).decayed_by(frames)
                == KeyState::Released,
    {
        if frames >= 1 {
            KeyState::edge(is_pressed).decay_settles(frames);
        }
    }
}

impl Default for KeyState {
    fn default() -> (state: Self)
        ensures
            state == KeyState::Released,
    {
        KeyState::Released
    }
}

} // verus!
