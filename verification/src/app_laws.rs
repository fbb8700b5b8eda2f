//! Laws of the frame orchestrator, stated over runs of the state machine.
//!
//! A run is a sequence of steps. Each step is an event together with the
//! state as the callbacks had left it when the event arrived, since the host
//! lends the state to the callbacks between two events.

use vstd::prelude::*;
use crate::app::{Action, AppView, Event, Phase};
use crate::state::StateView;

verus! {

/// One step of a run.
pub struct Step {
    /// The callbacks' state when the event arrives.
    pub state: StateView,
    pub event: Event,
    /// The clock reading when the event arrives.
    pub now: nat,
}

impl AppView {
    /// The machine after one step of a run, and the action it asks for.
    pub open spec fn fed(self, step: Step) -> (AppView, Action) {
        (AppView { state: step.state, ..self }).step(step.event, step.now)
    }

    /// The machine before step `i` of a run that starts here.
    pub open spec fn state_at(self, steps: Seq<Step>, i: nat) -> AppView
        decreases i,
    {
        if i == 0 {
            self
        } else {
            self.state_at(steps, (i - 1) as nat).fed(steps[i - 1]).0
        }
    }

    /// The action that step `i` of a run asks for.
    pub open spec fn action_at(self, steps: Seq<Step>, i: nat) -> Action {
        self.state_at(steps, i).fed(steps[i as int]).1
    }

    /// No callback lowers the close flag during the run: wherever the machine
    /// holds a raised flag, the next step finds it raised.
    pub open spec fn flag_stays_raised(self, steps: Seq<Step>) -> bool {
        forall|i: nat|
            i < steps.len() && (#[trigger] self.state_at(steps, i)).state.closed
                ==> steps[i as int].state.closed
    }

    /// The machine has left its last tick.
    pub open spec fn past_ticking(self) -> bool {
        self.phase == Phase::Closing || self.phase == Phase::Terminated
    }

    /// Step `i` starts a tick: the host asks for a frame between two ticks,
    /// with the close flag clear.
    pub open spec fn starts_tick(self, steps: Seq<Step>, i: nat) -> bool {
        &&& self.state_at(steps, i).phase == Phase::Activated
        &&& steps[i as int].event == Event::RedrawRequested
        &&& !steps[i as int].state.closed
    }
}

/// How far along its life a phase is: before the ticks, among them, closing,
/// terminated.
pub open spec fn stage(phase: Phase) -> nat {
    match phase {
        Phase::Created => 0,
        Phase::Activated => 1,
        Phase::Ticking(_) => 1,
        Phase::Closing => 2,
        Phase::Terminated => 3,
    }
}

/// The life of the machine only moves forward: from created to activated and
/// ticking, from there to closing, and from there to terminated.
pub proof fn lifecycle_moves_forward(s: AppView, step: Step)
    ensures
        stage(s.phase) <= stage(s.fed(step).0.phase),
{
}

/// A tick is entered only on a request for a frame, only between ticks, and
/// only with the close flag clear.
pub proof fn ticks_start_on_redraw_only(s: AppView, step: Step)
    requires
        !(s.phase is Ticking),
        s.fed(step).0.phase is Ticking,
    ensures
        s.phase == Phase::Activated,
        step.event == Event::RedrawRequested,
        !step.state.closed,
{
}

/// The machine never lowers the close flag.
pub proof fn step_keeps_flag(s: AppView, event: Event, now: nat)
    requires
        s.state.closed,
    ensures
        s.step(event, now).0.state.closed,
{
}

/// Once the machine has left its last tick it never returns: no event starts
/// a callback of a tick, draws or asks for another frame.
pub proof fn closing_is_final(s: AppView, step: Step)
    requires
        s.past_ticking(),
    ensures
        s.fed(step).0.past_ticking(),
        s.fed(step).1 == Action::Idle || s.fed(step).1 == Action::RunShutdown || s.fed(step).1
            == Action::Release,
{
}

/// With the close flag raised no callback of a tick starts and no frame is
/// drawn, whatever the event and whatever the phase.
pub proof fn nothing_starts_while_closed(s: AppView, step: Step)
    requires
        step.state.closed,
    ensures
        s.fed(step).0.state.closed,
        s.fed(step).1 != Action::RunFrame,
        s.fed(step).1 != Action::RunSetup,
        s.fed(step).1 != Action::Render,
{
}

/// A request for a frame that finds the close flag raised between two ticks
/// tells the host to leave its event loop.
pub proof fn redraw_while_closed_exits(s: AppView, step: Step)
    requires
        s.phase == Phase::Activated,
        step.state.closed,
        step.event == Event::RedrawRequested,
    ensures
        s.fed(step).1 == Action::Exit,
        s.fed(step).0.phase == Phase::Closing,
{
}

/// A close request raises the close flag. Outside a tick it also tells the
/// host to leave its event loop at once; in the middle of a tick it asks for
/// nothing, and the tick goes on to its next look at the flag.
pub proof fn close_request_raises_flag(s: AppView, step: Step)
    requires
        step.event == Event::CloseRequested,
    ensures
        s.fed(step).0.state.closed,
        s.phase == Phase::Created || s.phase == Phase::Activated ==> s.fed(step).1 == Action::Exit
            && s.fed(step).0.phase == Phase::Closing,
        s.phase is Ticking ==> s.fed(step).1 == Action::Idle && s.fed(step).0.phase == s.phase,
        s.past_ticking() ==> s.fed(step).1 == Action::Idle && s.fed(step).0.phase == s.phase,
{
}

/// A raised close flag stays raised over a run: from the step that finds it
/// raised on, every step finds it raised.
pub proof fn flag_raised_from(s: AppView, steps: Seq<Step>, from: nat, i: nat)
    requires
        s.flag_stays_raised(steps),
        from <= i < steps.len(),
        steps[from as int].state.closed,
    ensures
        steps[i as int].state.closed,
    decreases i,
{
    if i > from {
        let j = (i - 1) as nat;
        flag_raised_from(s, steps, from, j);
        assert(s.state_at(steps, i).state.closed);
    }
}

/// Once the close flag is raised, no further per-frame callback starts: in a
/// run in which some step finds the flag raised, neither that step nor any
/// later one asks for the per-frame callback, the setup callback or a frame
/// to be drawn, whatever events follow. The flag may have been raised inside
/// a per-frame callback, inside the setup callback, or in any other way.
pub proof fn no_frame_after_close(s: AppView, steps: Seq<Step>, from: nat, i: nat)
    requires
        s.flag_stays_raised(steps),
        from <= i < steps.len(),
        steps[from as int].state.closed,
    ensures
        s.action_at(steps, i) != Action::RunFrame,
        s.action_at(steps, i) != Action::RunSetup,
        s.action_at(steps, i) != Action::Render,
{
    flag_raised_from(s, steps, from, i);
    nothing_starts_while_closed(s.state_at(steps, i), steps[i as int]);
}

/// Once the user has asked to close the window, no further per-frame
/// callback starts: after a close request no step of the run asks for the
/// per-frame callback, the setup callback or a frame to be drawn.
pub proof fn no_frame_after_close_request(s: AppView, steps: Seq<Step>, request: nat, i: nat)
    requires
        s.flag_stays_raised(steps),
        request < i < steps.len(),
        steps[request as int].event == Event::CloseRequested,
    ensures
        s.action_at(steps, request) != Action::RunFrame,
        s.action_at(steps, i) != Action::RunFrame,
        s.action_at(steps, i) != Action::RunSetup,
        s.action_at(steps, i) != Action::Render,
{
    let next = (request + 1) as nat;
    assert(s.state_at(steps, next).state.closed);
    no_frame_after_close(s, steps, next, i);
}

/// The setup callback is asked for only while it is pending, and asking for
/// it uses it up.
pub proof fn setup_step(s: AppView, step: Step)
    ensures
        s.fed(step).1 == Action::RunSetup ==> s.setup_pending && s.phase == Phase::Activated
            && step.event == Event::RedrawRequested && !step.state.closed,
        s.fed(step).1 == Action::RunSetup ==> !s.fed(step).0.setup_pending,
        !s.setup_pending ==> !s.fed(step).0.setup_pending,
        s.setup_pending && !(s.phase == Phase::Activated && step.event == Event::RedrawRequested
            && !step.state.closed) ==> s.fed(step).0.setup_pending,
        s.setup_pending && s.phase == Phase::Activated && step.event == Event::RedrawRequested
            && !step.state.closed ==> s.fed(step).1 == Action::RunSetup,
{
}

/// A setup callback that is used up stays used up over a run.
pub proof fn setup_stays_used(s: AppView, steps: Seq<Step>, from: nat, to: nat)
    requires
        from <= to <= steps.len(),
        !s.state_at(steps, from).setup_pending,
    ensures
        !s.state_at(steps, to).setup_pending,
    decreases to,
{
    if to > from {
        setup_stays_used(s, steps, from, (to - 1) as nat);
        setup_step(s.state_at(steps, (to - 1) as nat), steps[to - 1]);
    }
}

/// The setup callback runs at most once: if two steps of a run ask for it,
/// they are the same step.
pub proof fn setup_runs_at_most_once(s: AppView, steps: Seq<Step>, i: nat, j: nat)
    requires
        i < steps.len(),
        j < steps.len(),
        s.action_at(steps, i) == Action::RunSetup,
        s.action_at(steps, j) == Action::RunSetup,
    ensures
        i == j,
{
    if i < j {
        setup_step(s.state_at(steps, i), steps[i as int]);
        setup_stays_used(s, steps, i + 1, j);
        setup_step(s.state_at(steps, j), steps[j as int]);
    } else if j < i {
        setup_step(s.state_at(steps, j), steps[j as int]);
        setup_stays_used(s, steps, j + 1, i);
        setup_step(s.state_at(steps, i), steps[i as int]);
    }
}

/// A setup callback that was never registered never runs.
pub proof fn no_setup_unless_registered(s: AppView, steps: Seq<Step>, i: nat)
    requires
        !s.setup_pending,
        i < steps.len(),
    ensures
        s.action_at(steps, i) != Action::RunSetup,
{
    setup_stays_used(s, steps, 0, i);
    setup_step(s.state_at(steps, i), steps[i as int]);
}

/// A pending setup callback stays pending until the first tick starts.
pub proof fn setup_waits_for_first_tick(s: AppView, steps: Seq<Step>, first: nat, i: nat)
    requires
        s.setup_pending,
        first < steps.len(),
        forall|k: nat| k < first ==> !s.starts_tick(steps, k),
        i <= first,
    ensures
        s.state_at(steps, i).setup_pending,
        forall|k: nat| k < i ==> s.action_at(steps, k) != Action::RunSetup,
    decreases i,
{
    if i > 0 {
        let j = (i - 1) as nat;
        setup_waits_for_first_tick(s, steps, first, j);
        assert(!s.starts_tick(steps, j));
        setup_step(s.state_at(steps, j), steps[j as int]);
    }
}

/// A registered setup callback runs exactly once over any number of ticks:
/// the step that starts the first tick asks for it, and no other step of the
/// run does, whatever the callbacks do to the state. A run in which no tick
/// starts, because the application closes first, never asks for it.
pub proof fn setup_runs_exactly_once(s: AppView, steps: Seq<Step>, first: nat, i: nat)
    requires
        s.setup_pending,
        first < steps.len(),
        s.starts_tick(steps, first),
        forall|k: nat| k < first ==> !s.starts_tick(steps, k),
        i < steps.len(),
    ensures
        s.action_at(steps, first) == Action::RunSetup,
        i != first ==> s.action_at(steps, i) != Action::RunSetup,
{
    setup_waits_for_first_tick(s, steps, first, first);
    setup_step(s.state_at(steps, first), steps[first as int]);
    if i != first && s.action_at(steps, i) == Action::RunSetup {
        setup_runs_at_most_once(s, steps, i, first);
    }
}

/// The shutdown callback is asked for only while it is pending, and asking
/// for it uses it up.
pub proof fn shutdown_step(s: AppView, step: Step)
    ensures
        s.fed(step).1 == Action::RunShutdown ==> s.shutdown_pending && !s.fed(
            step,
        ).0.shutdown_pending,
        !s.shutdown_pending ==> !s.fed(step).0.shutdown_pending,
{
}

/// A shutdown callback that is used up stays used up over a run.
pub proof fn shutdown_stays_used(s: AppView, steps: Seq<Step>, from: nat, to: nat)
    requires
        from <= to <= steps.len(),
        !s.state_at(steps, from).shutdown_pending,
    ensures
        !s.state_at(steps, to).shutdown_pending,
    decreases to,
{
    if to > from {
        shutdown_stays_used(s, steps, from, (to - 1) as nat);
        shutdown_step(s.state_at(steps, (to - 1) as nat), steps[to - 1]);
    }
}

/// The shutdown callback runs at most once.
pub proof fn shutdown_runs_at_most_once(s: AppView, steps: Seq<Step>, i: nat, j: nat)
    requires
        i < steps.len(),
        j < steps.len(),
        s.action_at(steps, i) == Action::RunShutdown,
        s.action_at(steps, j) == Action::RunShutdown,
    ensures
        i == j,
{
    if i < j {
        shutdown_step(s.state_at(steps, i), steps[i as int]);
        shutdown_stays_used(s, steps, i + 1, j);
        shutdown_step(s.state_at(steps, j), steps[j as int]);
    } else if j < i {
        shutdown_step(s.state_at(steps, j), steps[j as int]);
        shutdown_stays_used(s, steps, j + 1, i);
        shutdown_step(s.state_at(steps, i), steps[i as int]);
    }
}

/// Within a tick the decay step comes after the per-frame callback: the
/// callback's state reaches the close check with every edge of its frame
/// still in place, and only the step that starts rendering decays it.
pub proof fn decay_follows_frame(s: AppView, step: Step)
    ensures
        s.fed(step).1 == Action::Render ==> s.fed(step).0.state.input
            == step.state.input.decayed(),
        s.fed(step).1 == Action::RunFrame || s.fed(step).1 == Action::RunSetup || s.fed(step).1
            == Action::ApplyOptions(step.state.window_options) ==> s.fed(step).0.state.input
            == step.state.input,
{
}

} // verus!
