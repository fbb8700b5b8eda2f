use renoir::app::{Action, Event, Phase, RenderError, RenoirApp, TickStep};
use renoir::camera::TransformSpace;
use renoir::flow::Flow;
use renoir::input::{Delta, RawInput, RawKey};
use renoir::key_state::KeyState;
use renoir::keys::Key;
use renoir::state::RenoirAppState;
use renoir::time::DeltaTime;
use renoir::window_options::{CursorGrab, FullscreenMode, WindowCommand, WindowOptions};

/// Drives one whole tick with a frame callback and a successful render.
fn tick(app: &mut RenoirApp, now: u128, frame: &mut dyn FnMut(&mut RenoirAppState)) -> Vec<Action> {
    let mut actions = Vec::new();
    let mut action = app.handle_at(Event::RedrawRequested, now);
    loop {
        actions.push(action);
        action = match action {
            Action::RunSetup => app.handle_at(Event::SetupDone, now),
            Action::RunFrame => {
                frame(app.state_mut());
                app.handle_at(Event::FrameDone, now)
            }
            Action::ApplyOptions(_) => app.handle_at(Event::OptionsApplied, now),
            Action::Render => app.handle_at(Event::Rendered(Ok(())), now),
            Action::Reconfigure => app.handle_at(Event::Reconfigured, now),
            _ => break,
        };
    }
    actions
}

fn activated() -> RenoirApp {
    let mut app = RenoirApp::new();
    assert_eq!(app.handle_at(Event::Resumed, 0), Action::Realize(WindowOptions::new()));
    assert_eq!(app.phase(), Phase::Activated);
    app
}

#[test]
fn flow_starts_clear_and_latches() {
    let mut flow = Flow::new();
    assert!(!flow.should_close());
    flow.close();
    assert!(flow.should_close());
    flow.close();
    assert!(flow.should_close());
    assert!(!Flow::default().should_close());
}

#[test]
fn window_options_default_and_setters() {
    let mut options = WindowOptions::new();
    assert_eq!(options, WindowOptions { fullscreen: true, grab_cursor: true, show_cursor: false });
    assert_eq!(WindowOptions::default(), options);
    options.set_cursor_grab(false);
    assert_eq!(options, WindowOptions { fullscreen: true, grab_cursor: false, show_cursor: false });
    options.set_options(WindowOptions { fullscreen: false, grab_cursor: true, show_cursor: true });
    assert_eq!(options, WindowOptions { fullscreen: false, grab_cursor: true, show_cursor: true });
}

#[test]
fn window_options_translate_into_three_calls() {
    assert_eq!(
        WindowOptions::new().apply_to(),
        [
            WindowCommand::SetFullscreen(FullscreenMode::Borderless),
            WindowCommand::SetCursorGrab(CursorGrab::Locked),
            WindowCommand::SetCursorVisible(false),
        ]
    );
    let windowed = WindowOptions { fullscreen: false, grab_cursor: false, show_cursor: true };
    assert_eq!(
        windowed.apply_to(),
        [
            WindowCommand::SetFullscreen(FullscreenMode::Windowed),
            WindowCommand::SetCursorGrab(CursorGrab::Free),
            WindowCommand::SetCursorVisible(true),
        ]
    );
    assert_eq!(windowed.apply_to(), windowed.apply_to());
}

#[test]
fn transform_space_has_two_frames() {
    assert_ne!(TransformSpace::Local, TransformSpace::World);
}

#[test]
fn timer_delta_is_the_difference_of_two_readings() {
    let mut timer = DeltaTime::new();
    assert_eq!(timer.delta_time(), 0);
    timer.advance_to(1_000);
    assert_eq!(timer.delta_time(), 1_000);
    timer.advance_to(17_000);
    assert_eq!(timer.delta_time(), 16_000);
    timer.advance_to(17_000);
    assert_eq!(timer.delta_time(), 0);
    // A reading before the reference point gives zero, and becomes the reference.
    timer.advance_to(5_000);
    assert_eq!(timer.delta_time(), 0);
    timer.advance_to(5_500);
    assert_eq!(timer.delta_time(), 500);
    timer.advance_to(u128::MAX);
    assert_eq!(timer.delta_time(), u128::MAX - 5_500);
}

#[test]
fn timer_follows_the_clock() {
    let mut timer = DeltaTime::default();
    let before = timer.now();
    timer.update();
    let first = timer.delta_time();
    assert!(first >= before);
    let mid = timer.now();
    assert!(mid >= first);
    timer.update();
    // The second delta is measured from the first tick, not from the start.
    assert!(timer.delta_time() <= timer.now());
}

#[test]
fn app_state_starts_fresh_and_closes() {
    let mut state = RenoirAppState::new();
    assert!(!state.should_close());
    assert_eq!(state.window_options, WindowOptions::new());
    assert_eq!(state.time.delta_time(), 0);
    assert_eq!(state.input.get_key(Key::A), KeyState::Released);
    state.grab_cursor(false);
    assert_eq!(
        state.window_options,
        WindowOptions { fullscreen: true, grab_cursor: false, show_cursor: false }
    );
    state.close();
    assert!(state.should_close());
    assert!(state.flow.should_close());
    assert!(!RenoirAppState::default().should_close());
}

#[test]
fn render_errors_are_classified() {
    assert!(RenderError::SurfaceLost.is_recoverable());
    assert!(RenderError::SurfaceOutdated.is_recoverable());
    assert!(RenderError::SurfaceTimeout.is_recoverable());
    assert!(!RenderError::OutOfMemory.is_recoverable());
    assert!(!RenderError::Other.is_recoverable());
    assert!(RenderError::OutOfMemory.is_fatal());
    assert!(!RenderError::SurfaceLost.is_fatal());
    assert!(!RenderError::Other.is_fatal());
}

#[test]
fn nothing_ticks_before_a_surface_is_granted() {
    let mut app = RenoirApp::new();
    assert_eq!(app.phase(), Phase::Created);
    assert_eq!(app.handle_at(Event::RedrawRequested, 1), Action::Idle);
    assert_eq!(app.handle_at(Event::FrameDone, 1), Action::Idle);
    assert_eq!(app.phase(), Phase::Created);
    assert_eq!(app.handle_at(Event::Resumed, 2), Action::Realize(WindowOptions::new()));
    assert_eq!(app.phase(), Phase::Activated);
    assert_eq!(app.handle_at(Event::Resumed, 3), Action::Idle);
}

#[test]
fn options_set_before_activation_are_applied_on_activation() {
    let mut app = RenoirApp::new();
    let windowed = WindowOptions { fullscreen: false, grab_cursor: false, show_cursor: true };
    app.state_mut().window_options.set_options(windowed);
    assert_eq!(app.handle_at(Event::Resumed, 0), Action::Realize(windowed));
}

#[test]
fn a_tick_runs_its_steps_in_order() {
    let mut app = activated();
    assert_eq!(app.handle_at(Event::RedrawRequested, 10), Action::RunFrame);
    assert_eq!(app.phase(), Phase::Ticking(TickStep::Frame));
    assert_eq!(app.handle_at(Event::FrameDone, 11), Action::ApplyOptions(WindowOptions::new()));
    assert_eq!(app.phase(), Phase::Ticking(TickStep::Options));
    assert_eq!(app.handle_at(Event::OptionsApplied, 12), Action::Render);
    assert_eq!(app.phase(), Phase::Ticking(TickStep::Render));
    assert_eq!(app.handle_at(Event::Rendered(Ok(())), 13), Action::RequestRedraw);
    assert_eq!(app.phase(), Phase::Activated);
}

#[test]
fn events_out_of_turn_are_ignored() {
    let mut app = activated();
    assert_eq!(app.handle_at(Event::SetupDone, 1), Action::Idle);
    assert_eq!(app.handle_at(Event::OptionsApplied, 1), Action::Idle);
    assert_eq!(app.handle_at(Event::Rendered(Ok(())), 1), Action::Idle);
    assert_eq!(app.handle_at(Event::Reconfigured, 1), Action::Idle);
    assert_eq!(app.handle_at(Event::ShutdownDone, 1), Action::Idle);
    assert_eq!(app.phase(), Phase::Activated);
    assert_eq!(app.handle_at(Event::RedrawRequested, 2), Action::RunFrame);
    // A second request in the middle of a tick starts nothing.
    assert_eq!(app.handle_at(Event::RedrawRequested, 3), Action::Idle);
    assert_eq!(app.phase(), Phase::Ticking(TickStep::Frame));
    assert_eq!(app.state().time.delta_time(), 2);
}

#[test]
fn setup_runs_exactly_once_over_many_ticks() {
    let mut app = RenoirApp::new();
    app.setup();
    assert!(app.setup_pending());
    app.handle_at(Event::Resumed, 0);
    let mut setups = 0;
    let mut frames = 0;
    for n in 0..50u128 {
        for action in tick(&mut app, n * 16, &mut |_| {}) {
            match action {
                Action::RunSetup => {
                    setups += 1;
                    assert_eq!(n, 0);
                }
                Action::RunFrame => frames += 1,
                _ => {}
            }
        }
        assert!(!app.setup_pending());
    }
    assert_eq!(setups, 1);
    assert_eq!(frames, 50);
}

#[test]
fn setup_comes_before_the_timer_and_the_first_frame() {
    let mut app = RenoirApp::new();
    app.setup();
    app.handle_at(Event::Resumed, 0);
    assert_eq!(app.handle_at(Event::RedrawRequested, 100), Action::RunSetup);
    assert_eq!(app.phase(), Phase::Ticking(TickStep::Setup));
    assert_eq!(app.state().time.delta_time(), 0);
    assert_eq!(app.handle_at(Event::SetupDone, 250), Action::RunFrame);
    assert_eq!(app.state().time.delta_time(), 250);
}

#[test]
fn without_setup_no_setup_is_asked_for() {
    let mut app = activated();
    for n in 0..10u128 {
        assert_eq!(
            tick(&mut app, n, &mut |_| {}),
            vec![
                Action::RunFrame,
                Action::ApplyOptions(WindowOptions::new()),
                Action::Render,
                Action::RequestRedraw,
            ]
        );
    }
}

#[test]
fn closing_in_the_frame_callback_ends_the_frames() {
    let mut app = activated();
    let mut calls = 0;
    let mut frame = |state: &mut RenoirAppState| {
        calls += 1;
        if calls == 3 {
            state.close();
        }
    };
    let mut all = Vec::new();
    for n in 0..10u128 {
        all.extend(tick(&mut app, n, &mut frame));
    }
    assert_eq!(calls, 3);
    assert_eq!(all.iter().filter(|a| **a == Action::RunFrame).count(), 3);
    assert_eq!(all.iter().filter(|a| **a == Action::Render).count(), 2);
    assert_eq!(all.iter().filter(|a| **a == Action::Exit).count(), 1);
    assert_eq!(app.phase(), Phase::Closing);
    // The options are still applied on the closing tick, before the close check.
    assert_eq!(
        all[8..11].to_vec(),
        vec![Action::RunFrame, Action::ApplyOptions(WindowOptions::new()), Action::Exit]
    );
}

#[test]
fn close_request_between_ticks_exits_at_once() {
    let mut app = activated();
    assert_eq!(app.handle_at(Event::CloseRequested, 1), Action::Exit);
    assert!(app.state().should_close());
    assert_eq!(app.phase(), Phase::Closing);
    // No further tick starts, and so no further callback.
    assert_eq!(app.handle_at(Event::RedrawRequested, 2), Action::Idle);
    let mut calls = 0;
    assert_eq!(tick(&mut app, 3, &mut |_| calls += 1), vec![Action::Idle]);
    assert_eq!(calls, 0);
    assert_eq!(app.handle_at(Event::LoopExited, 4), Action::Release);
    assert_eq!(app.phase(), Phase::Terminated);
}

#[test]
fn close_request_before_a_surface_exits_at_once() {
    let mut app = RenoirApp::new();
    app.setup();
    assert_eq!(app.handle_at(Event::CloseRequested, 0), Action::Exit);
    assert!(app.state().should_close());
    assert_eq!(app.phase(), Phase::Closing);
    assert_eq!(app.handle_at(Event::Resumed, 1), Action::Idle);
    assert_eq!(app.handle_at(Event::RedrawRequested, 2), Action::Idle);
    assert!(app.setup_pending());
}

#[test]
fn close_request_in_the_frame_callback_step_ends_the_tick_at_its_close_check() {
    let mut app = activated();
    assert_eq!(app.handle_at(Event::RedrawRequested, 1), Action::RunFrame);
    assert_eq!(app.handle_at(Event::CloseRequested, 1), Action::Idle);
    assert!(app.state().should_close());
    assert_eq!(app.phase(), Phase::Ticking(TickStep::Frame));
    assert_eq!(app.handle_at(Event::FrameDone, 1), Action::ApplyOptions(WindowOptions::new()));
    assert_eq!(app.handle_at(Event::OptionsApplied, 1), Action::Exit);
    assert_eq!(app.phase(), Phase::Closing);
}

#[test]
fn close_request_while_rendering_lets_no_further_tick_start() {
    let mut app = activated();
    app.handle_at(Event::RedrawRequested, 1);
    app.handle_at(Event::FrameDone, 1);
    assert_eq!(app.handle_at(Event::OptionsApplied, 1), Action::Render);
    assert_eq!(app.handle_at(Event::CloseRequested, 1), Action::Idle);
    assert_eq!(app.phase(), Phase::Ticking(TickStep::Render));
    assert_eq!(app.handle_at(Event::Rendered(Ok(())), 1), Action::RequestRedraw);
    assert_eq!(app.phase(), Phase::Activated);
    let mut calls = 0;
    assert_eq!(tick(&mut app, 2, &mut |_| calls += 1), vec![Action::Exit]);
    assert_eq!(calls, 0);
    assert_eq!(app.phase(), Phase::Closing);
}

#[test]
fn a_flag_raised_between_ticks_lets_no_tick_start() {
    let mut app = RenoirApp::new();
    app.setup();
    app.handle_at(Event::Resumed, 0);
    app.state_mut().close();
    assert_eq!(app.handle_at(Event::RedrawRequested, 1), Action::Exit);
    assert_eq!(app.phase(), Phase::Closing);
    // The setup callback was never asked for, and stays unused.
    assert!(app.setup_pending());
    assert_eq!(app.state().time.delta_time(), 0);
}

#[test]
fn closing_in_the_setup_callback_lets_no_frame_callback_start() {
    let mut app = RenoirApp::new();
    app.setup();
    app.handle_at(Event::Resumed, 0);
    assert_eq!(app.handle_at(Event::RedrawRequested, 1), Action::RunSetup);
    app.state_mut().close();
    assert_eq!(app.handle_at(Event::SetupDone, 2), Action::Exit);
    assert_eq!(app.phase(), Phase::Closing);
    assert_eq!(app.state().time.delta_time(), 0);
    assert_eq!(app.handle_at(Event::RedrawRequested, 3), Action::Idle);
}

#[test]
fn decay_runs_after_the_frame_callback_and_not_on_the_closing_tick() {
    let mut app = activated();
    app.handle_at(Event::Input(RawInput::Key(RawKey::Code(Key::E.index()), true)), 0);
    app.handle_at(
        Event::Input(RawInput::CursorMotion(Delta { x: 2.0f32.to_bits(), y: 3.0f32.to_bits() })),
        0,
    );
    let mut seen = Vec::new();
    tick(&mut app, 1, &mut |state| {
        seen.push((state.input.get_key(Key::E), state.input.get_mouse_delta()));
    });
    tick(&mut app, 2, &mut |state| {
        seen.push((state.input.get_key(Key::E), state.input.get_mouse_delta()));
        state.close();
    });
    assert_eq!(
        seen,
        vec![
            (KeyState::JustPressed, Delta { x: 2.0f32.to_bits(), y: 3.0f32.to_bits() }),
            (KeyState::Pressed, Delta::zero()),
        ]
    );
    // No decay on the closing tick: the state is as the callback left it.
    app.handle_at(Event::Input(RawInput::Key(RawKey::Code(Key::E.index()), false)), 3);
    assert_eq!(app.state().input.get_key(Key::E), KeyState::JustReleased);
}

#[test]
fn recoverable_render_errors_reconfigure_and_go_on() {
    for error in [RenderError::SurfaceLost, RenderError::SurfaceOutdated, RenderError::SurfaceTimeout] {
        let mut app = activated();
        app.handle_at(Event::RedrawRequested, 1);
        app.handle_at(Event::FrameDone, 1);
        app.handle_at(Event::OptionsApplied, 1);
        assert_eq!(app.handle_at(Event::Rendered(Err(error)), 1), Action::Reconfigure);
        assert_eq!(app.phase(), Phase::Ticking(TickStep::Reconfigure));
        assert_eq!(app.handle_at(Event::Reconfigured, 1), Action::RequestRedraw);
        assert_eq!(app.phase(), Phase::Activated);
        assert_eq!(app.handle_at(Event::RedrawRequested, 2), Action::RunFrame);
    }
}

#[test]
fn out_of_memory_closes_and_other_errors_are_transient() {
    let mut app = activated();
    app.handle_at(Event::RedrawRequested, 1);
    app.handle_at(Event::FrameDone, 1);
    app.handle_at(Event::OptionsApplied, 1);
    assert_eq!(app.handle_at(Event::Rendered(Err(RenderError::Other)), 1), Action::RequestRedraw);
    assert_eq!(app.phase(), Phase::Activated);

    app.handle_at(Event::RedrawRequested, 2);
    app.handle_at(Event::FrameDone, 2);
    app.handle_at(Event::OptionsApplied, 2);
    assert_eq!(app.handle_at(Event::Rendered(Err(RenderError::OutOfMemory)), 2), Action::Exit);
    assert_eq!(app.phase(), Phase::Closing);
    assert_eq!(app.handle_at(Event::RedrawRequested, 3), Action::Idle);
}

#[test]
fn shutdown_runs_once_then_collaborators_are_released() {
    let mut app = activated();
    app.quit();
    assert!(app.shutdown_pending());
    tick(&mut app, 1, &mut |state| state.close());
    assert_eq!(app.phase(), Phase::Closing);
    assert_eq!(app.handle_at(Event::LoopExited, 2), Action::RunShutdown);
    assert!(!app.shutdown_pending());
    assert_eq!(app.phase(), Phase::Closing);
    assert_eq!(app.handle_at(Event::ShutdownDone, 3), Action::Release);
    assert_eq!(app.phase(), Phase::Terminated);
    assert_eq!(app.handle_at(Event::LoopExited, 4), Action::Idle);
    assert_eq!(app.handle_at(Event::ShutdownDone, 4), Action::Idle);
    assert_eq!(app.handle_at(Event::RedrawRequested, 4), Action::Idle);
    assert_eq!(app.handle_at(Event::Resumed, 4), Action::Idle);
    assert_eq!(app.phase(), Phase::Terminated);
}

#[test]
fn without_shutdown_callback_the_loop_exit_releases_at_once() {
    let mut app = activated();
    tick(&mut app, 1, &mut |state| state.close());
    assert_eq!(app.handle_at(Event::LoopExited, 2), Action::Release);
    assert_eq!(app.phase(), Phase::Terminated);
}

#[test]
fn handle_reads_the_clock_itself() {
    let mut app = RenoirApp::default();
    assert_eq!(app.handle(Event::Resumed), Action::Realize(WindowOptions::new()));
    assert_eq!(app.handle(Event::RedrawRequested), Action::RunFrame);
    let first = app.state().time.delta_time();
    assert_eq!(app.handle(Event::FrameDone), Action::ApplyOptions(WindowOptions::new()));
    assert_eq!(app.handle(Event::OptionsApplied), Action::Render);
    assert_eq!(app.handle(Event::Rendered(Ok(()))), Action::RequestRedraw);
    // Only the timer step touches the delta.
    assert_eq!(app.state().time.delta_time(), first);
    assert!(app.state().time.now() >= first);
}

#[test]
fn strafing_right_for_one_frame_moves_by_speed_times_delta() {
    let mut app = activated();
    app.handle_at(Event::Input(RawInput::Key(RawKey::Code(Key::D.index()), true)), 0);
    let speed: f32 = 3.0;
    let mut x: f32 = 0.0;
    tick(&mut app, 16_000_000, &mut |state| {
        let delta = state.time.delta_time() as f32 / 1.0e9;
        assert_eq!(delta, 0.016);
        let direction = state.input.pressed(Key::D) as i32 - state.input.pressed(Key::A) as i32;
        assert_eq!(direction, 1);
        x += direction as f32 * speed * delta;
    });
    assert!((x - 0.048).abs() < 1e-6);
}
