//! The frame orchestrator: the state machine that turns the host's events
//! into the per-frame sequence of callbacks, window calls and rendering.
//!
//! The machine decides; the host acts. The host hands every event to
//! [`RenoirApp::handle`], performs the [`Action`] that comes back, and reports
//! the end of that work as the next event.

use vstd::prelude::*;
use crate::input::RawInput;
use crate::state::{RenoirAppState, StateView};
use crate::window_options::WindowOptions;

verus! {

/// What the host may be busy with in the middle of a tick.
#[derive(Clone, Copy, PartialEq, Eq, Structural, Debug)]
pub enum TickStep {
    /// The one-time setup callback is running.
    Setup,
    /// The per-frame callback is running.
    Frame,
    /// The window options are being applied.
    Options,
    /// The renderer is drawing the frame.
    Render,
    /// The renderer is reconfiguring its surface.
    Reconfigure,
}

/// Where the orchestrator stands in its life.
#[derive(Clone, Copy, PartialEq, Eq, Structural, Debug)]
pub enum Phase {
    /// No window and no renderer yet.
    Created,
    /// Window and renderer exist; between two ticks.
    Activated,
    /// In the middle of a tick.
    Ticking(TickStep),
    /// The host has been told to leave its event loop.
    Closing,
    /// The collaborators have been released. Nothing happens any more.
    Terminated,
}

/// Why the renderer could not draw a frame.
#[derive(Clone, Copy, PartialEq, Eq, Structural, Debug)]
pub enum RenderError {
    SurfaceLost,
    SurfaceOutdated,
    SurfaceTimeout,
    OutOfMemory,
    Other,
}

/// What the host reports to the orchestrator.
#[derive(Clone, Copy, Debug)]
pub enum Event {
    /// The host has granted a drawable surface.
    Resumed,
    /// The host asks for a frame.
    RedrawRequested,
    /// The setup callback has returned.
    SetupDone,
    /// The per-frame callback has returned.
    FrameDone,
    /// The window options have been applied.
    OptionsApplied,
    /// The renderer has drawn the frame, or failed to.
    Rendered(Result<(), RenderError>),
    /// The renderer has reconfigured its surface.
    Reconfigured,
    /// The user asked to close the window. No callback starts after it.
    CloseRequested,
    /// The host has left its event loop.
    LoopExited,
    /// The shutdown callback has returned.
    ShutdownDone,
    /// Raw input from a device or the window.
    Input(RawInput),
}

/// What the orchestrator asks of the host.
#[derive(Clone, Copy, PartialEq, Eq, Structural, Debug)]
pub enum Action {
    /// Nothing; wait for the next event.
    Idle,
    /// Create the window, apply these options to it, and create the renderer.
    Realize(WindowOptions),
    /// Run the setup callback, then report `SetupDone`.
    RunSetup,
    /// Run the per-frame callback, then report `FrameDone`.
    RunFrame,
    /// Apply these options to the window, then report `OptionsApplied`.
    ApplyOptions(WindowOptions),
    /// Draw the frame, then report `Rendered` with the outcome.
    Render,
    /// Reconfigure the renderer's surface at its current size, then report
    /// `Reconfigured`.
    Reconfigure,
    /// Ask the window for the next frame.
    RequestRedraw,
    /// Leave the event loop, then report `LoopExited`.
    Exit,
    /// Run the shutdown callback, then report `ShutdownDone`.
    RunShutdown,
    /// Release the window and the renderer.
    Release,
}

impl RenderError {
    /// The surface can be brought back by reconfiguring it.
    pub open spec fn spec_is_recoverable(self) -> bool {
        self == RenderError::SurfaceLost || self == RenderError::SurfaceOutdated || self
            == RenderError::SurfaceTimeout
    }

    /// Nothing can bring the renderer back.
    pub open spec fn spec_is_fatal(self) -> bool {
        self == RenderError::OutOfMemory
    }

    /// The surface can be brought back by reconfiguring it.
    pub fn is_recoverable(self) -> (yes: bool)
        ensures
            yes == self.spec_is_recoverable(),
    {
        match self {
            RenderError::SurfaceLost => true,
            RenderError::SurfaceOutdated => true,
            RenderError::SurfaceTimeout => true,
            RenderError::OutOfMemory => false,
            RenderError::Other => false,
        }
    }

    /// Nothing can bring the renderer back.
    pub fn is_fatal(self) -> (yes: bool)
        ensures
            yes == self.spec_is_fatal(),
    {
        match self {
            RenderError::OutOfMemory => true,
            _ => false,
        }
    }
}

/// The mathematical content of a [`RenoirApp`].
pub struct AppView {
    pub phase: Phase,
    /// A setup callback is registered and has not run yet.
    pub setup_pending: bool,
    /// A shutdown callback is registered and has not run yet.
    pub shutdown_pending: bool,
    pub state: StateView,
}

impl AppView {
    /// A fresh orchestrator: no surface yet, no callback registered.
    pub open spec fn initial() -> AppView {
        AppView {
            phase: Phase::Created,
            setup_pending: false,
            shutdown_pending: false,
            state: StateView::initial(),
        }
    }

    /// The machine in another phase.
    pub open spec fn in_phase(self, phase: Phase) -> AppView {
        AppView { phase, ..self }
    }

    /// The timer step and the start of the per-frame callback. With the
    /// close flag raised no callback starts: the host is told to leave its
    /// event loop instead.
    pub open spec fn begin_frame(self, now: nat) -> (AppView, Action) {
        if self.state.closed {
            (self.in_phase(Phase::Closing), Action::Exit)
        } else {
            (
                AppView {
                    phase: Phase::Ticking(TickStep::Frame),
                    state: StateView { time: self.state.time.advanced_to(now), ..self.state },
                    ..self
                },
                Action::RunFrame,
            )
        }
    }

    /// The host asks for a frame. A tick starts only between ticks, and only
    /// with the close flag clear: with the setup callback if one is pending,
    /// which is thereby used up, else with the timer step and the per-frame
    /// callback. With the flag raised the host is told to leave its event
    /// loop, and no callback starts.
    pub open spec fn on_redraw(self, now: nat) -> (AppView, Action) {
        if self.phase != Phase::Activated {
            (self, Action::Idle)
        } else if self.state.closed {
            (self.in_phase(Phase::Closing), Action::Exit)
        } else if self.setup_pending {
            (
                AppView {
                    phase: Phase::Ticking(TickStep::Setup),
                    setup_pending: false,
                    ..self
                },
                Action::RunSetup,
            )
        } else {
            self.begin_frame(now)
        }
    }

    /// The close check, the decay step and the start of rendering, once the
    /// window options are applied. A raised close flag ends the tick here.
    pub open spec fn on_options_applied(self) -> (AppView, Action) {
        if self.state.closed {
            (self.in_phase(Phase::Closing), Action::Exit)
        } else {
            (
                AppView {
                    phase: Phase::Ticking(TickStep::Render),
                    state: StateView { input: self.state.input.decayed(), ..self.state },
                    ..self
                },
                Action::Render,
            )
        }
    }

    /// The end of rendering. A drawn frame and a transient error lead to the
    /// next frame; a lost, outdated or timed out surface is reconfigured
    /// first; exhausted memory closes the application.
    pub open spec fn on_rendered(self, outcome: Result<(), RenderError>) -> (AppView, Action) {
        match outcome {
            Ok(_) => (self.in_phase(Phase::Activated), Action::RequestRedraw),
            Err(error) => if error.spec_is_recoverable() {
                (self.in_phase(Phase::Ticking(TickStep::Reconfigure)), Action::Reconfigure)
            } else if error.spec_is_fatal() {
                (self.in_phase(Phase::Closing), Action::Exit)
            } else {
                (self.in_phase(Phase::Activated), Action::RequestRedraw)
            },
        }
    }

    /// The user asked to close the window: the close flag is raised. Outside
    /// a tick the host is told to leave its event loop at once. In the middle
    /// of a tick the flag alone is raised, and the tick ends at its next look
    /// at the flag.
    pub open spec fn on_close_requested(self) -> (AppView, Action) {
        let raised = AppView { state: StateView { closed: true, ..self.state }, ..self };
        if self.phase == Phase::Created || self.phase == Phase::Activated {
            (raised.in_phase(Phase::Closing), Action::Exit)
        } else {
            (raised, Action::Idle)
        }
    }

    /// The host has left its event loop: the shutdown callback runs if one is
    /// pending, which is thereby used up; else the collaborators are released.
    pub open spec fn on_loop_exited(self) -> (AppView, Action) {
        if self.phase == Phase::Terminated {
            (self, Action::Idle)
        } else if self.shutdown_pending {
            (
                AppView { phase: Phase::Closing, shutdown_pending: false, ..self },
                Action::RunShutdown,
            )
        } else {
            (self.in_phase(Phase::Terminated), Action::Release)
        }
    }

    /// The transition function: the next state and the action for the host.
    /// `now` is the reading of the timer's clock at the time of the event. An
    /// event that reports the end of work the machine is not waiting for is
    /// ignored.
    pub open spec fn step(self, event: Event, now: nat) -> (AppView, Action) {
        match event {
            Event::Resumed => if self.phase == Phase::Created {
                (self.in_phase(Phase::Activated), Action::Realize(self.state.window_options))
            } else {
                (self, Action::Idle)
            },
            Event::RedrawRequested => self.on_redraw(now),
            Event::SetupDone => if self.phase == Phase::Ticking(TickStep::Setup) {
                self.begin_frame(now)
            } else {
                (self, Action::Idle)
            },
            Event::FrameDone => if self.phase == Phase::Ticking(TickStep::Frame) {
                (
                    self.in_phase(Phase::Ticking(TickStep::Options)),
                    Action::ApplyOptions(self.state.window_options),
                )
            } else {
                (self, Action::Idle)
            },
            Event::OptionsApplied => if self.phase == Phase::Ticking(TickStep::Options) {
                self.on_options_applied()
            } else {
                (self, Action::Idle)
            },
            Event::Rendered(outcome) => if self.phase == Phase::Ticking(TickStep::Render) {
                self.on_rendered(outcome)
            } else {
                (self, Action::Idle)
            },
            Event::Reconfigured => if self.phase == Phase::Ticking(TickStep::Reconfigure) {
                (self.in_phase(Phase::Activated), Action::RequestRedraw)
            } else {
                (self, Action::Idle)
            },
            Event::CloseRequested => self.on_close_requested(),
            Event::LoopExited => self.on_loop_exited(),
            Event::ShutdownDone => if self.phase == Phase::Closing {
                (self.in_phase(Phase::Terminated), Action::Release)
            } else {
                (self, Action::Idle)
            },
            Event::Input(raw) => (
                AppView {
                    state: StateView { input: self.state.input.with_raw(raw), ..self.state },
                    ..self
                },
                Action::Idle,
            ),
        }
    }
}

/// The frame orchestrator.
pub struct RenoirApp {
    state: RenoirAppState,
    phase: Phase,
    setup_fn: bool,
    quit_fn: bool,
}

impl View for RenoirApp {
    type V = AppView;

    closed spec fn view(&self) -> AppView {
        AppView {
            phase: self.phase,
            setup_pending: self.setup_fn,
            shutdown_pending: self.quit_fn,
            state: self.state@,
        }
    }
}

impl RenoirApp {
    /// A fresh orchestrator: no surface yet, no callback registered.
    pub fn new() -> (app: Self)
        ensures
            app@ == AppView::initial(),
    {
        RenoirApp {
            state: RenoirAppState::new(),
            phase: Phase::Created,
            setup_fn: false,
            quit_fn: false,
        }
    }

    /// The state that the callbacks read.
    pub fn state(&self) -> (state: &RenoirAppState)
        ensures
            state@ == self@.state,
    {
        &self.state
    }

    /// The state that the callbacks change. The host lends it to each
    /// callback it runs; whatever the callback leaves there is the state that
    /// the next event meets.
    pub fn state_mut(&mut self) -> (state: &mut RenoirAppState)
        ensures
            state@ == old(self)@.state,
            final(self)@ == (AppView { state: final(state)@, ..old(self)@ }),
    {
        &mut self.state
    }

    /// Registers a setup callback: the host will be asked to run it once, at
    /// the start of the next tick.
    pub fn setup(&mut self)
        ensures
            final(self)@ == (AppView { setup_pending: true, ..old(self)@ }),
    {
        self.setup_fn = true;
    }

    /// Registers a shutdown callback: the host will be asked to run it once,
    /// after it has left its event loop.
    pub fn quit(&mut self)
        ensures
            final(self)@ == (AppView { shutdown_pending: true, ..old(self)@ }),
    {
        self.quit_fn = true;
    }

    /// Where the orchestrator stands in its life.
    pub fn phase(&self) -> (phase: Phase)
        ensures
            phase == self@.phase,
    {
        self.phase
    }

    /// Whether a setup callback is registered and has not run yet.
    pub fn setup_pending(&self) -> (pending: bool)
        ensures
            pending == self@.setup_pending,
    {
        self.setup_fn
    }

    /// Whether a shutdown callback is registered and has not run yet.
    pub fn shutdown_pending(&self) -> (pending: bool)
        ensures
            pending == self@.shutdown_pending,
    {
        self.quit_fn
    }

    fn begin_frame(&mut self, now: u128) -> (action: Action)
        ensures
            (final(self)@, action) == old(self)@.begin_frame(now as nat),
    {
        if self.state.should_close() {
            self.phase = Phase::Closing;
            Action::Exit
        } else {
            self.state.time.advance_to(now);
            self.phase = Phase::Ticking(TickStep::Frame);
            Action::RunFrame
        }
    }

    /// Takes an event that happened at the clock reading `now` and says what
    /// the host does next.
    pub fn handle_at(&mut self, event: Event, now: u128) -> (action: Action)
        ensures
            (final(self)@, action) == old(self)@.step(event, now as nat),
    {
        match event {
            Event::Resumed => {
                if self.phase == Phase::Created {
                    self.phase = Phase::Activated;
                    Action::Realize(self.state.window_options)
                } else {
                    Action::Idle
                }
            },
            Event::RedrawRequested => {
                if self.phase != Phase::Activated {
                    Action::Idle
                } else if self.state.should_close() {
                    self.phase = Phase::Closing;
                    Action::Exit
                } else if self.setup_fn {
                    self.setup_fn = false;
                    self.phase = Phase::Ticking(TickStep::Setup);
                    Action::RunSetup
                } else {
                    self.begin_frame(now)
                }
            },
            Event::SetupDone => {
                if self.phase == Phase::Ticking(TickStep::Setup) {
                    self.begin_frame(now)
                } else {
                    Action::Idle
                }
            },
            Event::FrameDone => {
                if self.phase == Phase::Ticking(TickStep::Frame) {
                    self.phase = Phase::Ticking(TickStep::Options);
                    Action::ApplyOptions(self.state.window_options)
                } else {
                    Action::Idle
                }
            },
            Event::OptionsApplied => {
                if self.phase == Phase::Ticking(TickStep::Options) {
                    if self.state.should_close() {
                        self.phase = Phase::Closing;
                        Action::Exit
                    } else {
                        self.state.input.update();
                        self.phase = Phase::Ticking(TickStep::Render);
                        Action::Render
                    }
                } else {
                    Action::Idle
                }
            },
            Event::Rendered(outcome) => {
                if self.phase == Phase::Ticking(TickStep::Render) {
                    match outcome {
                        Ok(_) => {
                            self.phase = Phase::Activated;
                            Action::RequestRedraw
                        },
                        Err(error) => {
                            if error.is_recoverable() {
                                self.phase = Phase::Ticking(TickStep::Reconfigure);
                                Action::Reconfigure
                            } else if error.is_fatal() {
                                self.phase = Phase::Closing;
                                Action::Exit
                            } else {
                                self.phase = Phase::Activated;
                                Action::RequestRedraw
                            }
                        },
                    }
                } else {
                    Action::Idle
                }
            },
            Event::Reconfigured => {
                if self.phase == Phase::Ticking(TickStep::Reconfigure) {
                    self.phase = Phase::Activated;
                    Action::RequestRedraw
                } else {
                    Action::Idle
                }
            },
            Event::CloseRequested => {
                self.state.close();
                if self.phase == Phase::Created || self.phase == Phase::Activated {
                    self.phase = Phase::Closing;
                    Action::Exit
                } else {
                    Action::Idle
                }
            },
            Event::LoopExited => {
                if self.phase == Phase::Terminated {
                    Action::Idle
                } else if self.quit_fn {
                    self.quit_fn = false;
                    self.phase = Phase::Closing;
                    Action::RunShutdown
                } else {
                    self.phase = Phase::Terminated;
                    Action::Release
                }
            },
            Event::ShutdownDone => {
                if self.phase == Phase::Closing {
                    self.phase = Phase::Terminated;
                    Action::Release
                } else {
                    Action::Idle
                }
            },
            Event::Input(raw) => {
                self.state.input.process_events(raw);
                Action::Idle
            },
        }
    }

    /// Takes an event that happens now and says what the host does next. The
    /// clock is read once, on entry.
    pub fn handle(&mut self, event: Event) -> (action: Action)
        ensures
            exists|now: nat| (final(self)@, action) == old(self)@.step(event, now),
    {
        let now = self.state.time.now();
        let action = self.handle_at(event, now);
        assert((self@, action) == old(self)@.step(event, now as nat));
        action
    }
}

impl Default for RenoirApp {
    fn default() -> (app: Self)
        ensures
            app@ == AppView::initial(),
    {
        RenoirApp::new()
    }
}

} // verus!
