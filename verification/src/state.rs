//! Everything that the application's callbacks can read and change while the
//! application runs.

use vstd::prelude::*;
use crate::flow::Flow;
use crate::input::{InputView, RenoirInput};
use crate::time::{DeltaTime, TimerView};
use crate::window_options::WindowOptions;

verus! {

/// The state handed to the setup, per-frame and shutdown callbacks.
pub struct RenoirAppState {
    pub input: RenoirInput,
    pub flow: Flow,
    pub time: DeltaTime,
    pub window_options: WindowOptions,
}

/// The mathematical content of a [`RenoirAppState`].
pub struct StateView {
    pub input: InputView,
    /// The close flag.
    pub closed: bool,
    pub time: TimerView,
    pub window_options: WindowOptions,
}

impl View for RenoirAppState {
    type V = StateView;

    open spec fn view(&self) -> StateView {
        StateView {
            input: self.input@,
            closed: self.flow@,
            time: self.time@,
            window_options: self.window_options,
        }
    }
}

impl StateView {
    /// The state of a fresh application.
    pub open spec fn initial() -> StateView {
        StateView {
            input: InputView::initial(),
            closed: false,
            time: TimerView::initial(),
            window_options: WindowOptions::spec_default(),
        }
    }
}

impl RenoirAppState {
    /// Nothing pressed, the close flag clear, the timer at zero, the default
    /// window options.
    pub fn new() -> (state: Self)
        ensures
            state@ == StateView::initial(),
    {
        RenoirAppState {
            input: RenoirInput::new(),
            flow: Flow::new(),
            time: DeltaTime::new(),
            window_options: WindowOptions::new(),
        }
    }

    /// Whether closing has been requested.
    pub fn should_close(&self) -> (closing: bool)
        ensures
            closing == self@.closed,
    {
        self.flow.should_close()
    }

    /// Asks the application to close after the current frame.
    pub fn close(&mut self)
        ensures
            final(self)@ == (StateView { closed: true, ..old(self)@ }),
    {
        self.flow.close();
    }

    /// Sets whether the window grabs the cursor.
    pub fn grab_cursor(&mut self, grab: bool)
        ensures
            final(self)@ == (StateView {
                window_options: WindowOptions { grab_cursor: grab, ..old(self)@.window_options },
                ..old(self)@
            }),
    {
        self.window_options.set_cursor_grab(grab);
    }
}

impl Default for RenoirAppState {
    fn default() -> (state: Self)
        ensures
            state@ == StateView::initial(),
    {
        RenoirAppState::new()
    }
}

} // verus!
