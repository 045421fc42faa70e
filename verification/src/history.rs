//! Whole runs of the runtime: what holds of the operations issued for any
//! sequence of platform signals, from the first to the last.

use crate::command::{lemma_stages_concat, stages, Command, FrameStage};
use crate::event::Event;
use crate::runtime::{
    frame_stages, lemma_frame_order, shutdown_commands, startup_commands, teardown_commands,
    Phase, RuntimeState, SurfaceSize,
};
use vstd::prelude::*;

verus! {

/// One signal of the platform, as the host hands it to the runtime.
pub enum Input {
    /// The "resumed" signal, with the client size of the window.
    Resumed { width: u32, height: u32 },
    /// A window event, with the verdict of the UI input layer.
    Window { event: Event, consumed: bool },
    /// The event loop has ended.
    LoopEnded,
}

/// The transition that an input selects.
pub open spec fn step(state: RuntimeState, input: Input) -> (RuntimeState, Seq<Command>) {
    match input {
        Input::Resumed { width, height } => state.resume(width, height),
        Input::Window { event, consumed } => state.handle(event, consumed),
        Input::LoopEnded => state.finish(),
    }
}

/// The state after `inputs`, and every command issued on the way, in order.
pub open spec fn run(state: RuntimeState, inputs: Seq<Input>) -> (RuntimeState, Seq<Command>)
    decreases inputs.len(),
{
    if inputs.len() == 0 {
        (state, Seq::empty())
    } else {
        let (before, issued) = run(state, inputs.drop_last());
        let (after, commands) = step(before, inputs.last());
        (after, issued + commands)
    }
}

/// No command of the list belongs to shutdown.
pub open spec fn no_shutdown(commands: Seq<Command>) -> bool {
    forall|i: int| 0 <= i < commands.len() ==> !(#[trigger] commands[i]).spec_is_shutdown()
}

/// Whether a command is one that startup alone performs.
pub open spec fn startup_only(command: Command) -> bool {
    command is CreateSurface || command == Command::MakeCurrent || command
        == Command::LoadGpuEntryPoints || command == Command::EnableDiagnostics || command
        == Command::CreateOverlay || command == Command::CreateUi || command
        == Command::AppInitialize
}

/// What the commands issued so far look like in each phase.
///
/// Before startup nothing was issued. From startup on, the commands begin
/// with the startup sequence, which performs each creation once, and no later
/// command creates anything. While events are dispatched no shutdown command
/// was issued. A shutdown ends the commands with cleanup, overlay release and
/// exit, in this order; the end of the loop adds the teardown of surface,
/// context and window; and before that tail there is no shutdown command.
pub open spec fn history_matches(phase: Phase, issued: Seq<Command>) -> bool {
    let tail = match phase {
        Phase::ShuttingDown => shutdown_commands(),
        Phase::Terminated => shutdown_commands() + teardown_commands(),
        _ => Seq::empty(),
    };
    if phase is Uninitialized {
        issued.len() == 0
    } else {
        let body_end = issued.len() - tail.len();
        &&& issued.len() >= 8 + tail.len()
        &&& exists|surface: SurfaceSize|
            surface.presentable() && #[trigger] startup_commands(surface) == issued.take(8)
        &&& issued.skip(body_end) == tail
        &&& no_shutdown(issued.take(body_end))
        &&& forall|i: int| 8 <= i < issued.len() ==> !startup_only(#[trigger] issued[i])
    }
}

/// Whether the size that a command carries, if it carries one, has pixels on
/// both axes.
pub open spec fn has_pixels(command: Command) -> bool {
    match command {
        Command::CreateSurface { width, height } => width > 0 && height > 0,
        Command::ResizeSurface { width, height } => width > 0 && height > 0,
        Command::SetViewport { width, height } => width > 0 && height > 0,
        Command::AppResize { width, height } => width > 0 && height > 0,
        Command::ComposeOverlay { width, height } => width > 0 && height > 0,
        _ => true,
    }
}

/// The stages of the list are whole frames, one after another.
pub open spec fn whole_frames(observed: Seq<FrameStage>) -> bool {
    &&& observed.len() % 5 == 0
    &&& forall|i: int| 0 <= i < observed.len() ==> #[trigger] observed[i] == frame_stages()[i % 5]
}

/// Every transition keeps the surface of an active phase presentable.
pub proof fn lemma_step_keeps_wf(state: RuntimeState, input: Input)
    requires
        state.wf(),
    ensures
        step(state, input).0.wf(),
{
}

/// No input resets or moves the start of the frame clock.
pub proof fn lemma_clock_start_is_fixed(now: u64, inputs: Seq<Input>)
    ensures
        run(RuntimeState::initial(now), inputs).0.clock.start == now,
    decreases inputs.len(),
{
    if inputs.len() > 0 {
        lemma_clock_start_is_fixed(now, inputs.drop_last());
    }
}

/// An event that the UI input layer consumed reaches no built-in handling:
/// the state stays as it is and nothing is issued.
pub proof fn lemma_consumed_is_inert(state: RuntimeState, event: Event)
    ensures
        state.handle(event, true) == (state, Seq::<Command>::empty()),
{
}

/// A resize to a size that lacks pixels on an axis leaves the surface as it
/// was and tells the application nothing. A resize to a size with pixels,
/// while events are dispatched and unless the UI consumed it, makes the
/// surface exactly that size and tells the application once, after surface
/// and viewport.
pub proof fn lemma_resize(state: RuntimeState, width: u32, height: u32, consumed: bool)
    ensures
        ({
            let (after, commands) = state.handle(Event::Resized { width, height }, consumed);
            if state.phase.active() && !consumed && width > 0 && height > 0 {
                &&& after.phase.surface() == Some(SurfaceSize { width, height })
                &&& after.phase is Ready <==> state.phase is Ready
                &&& after.clock == state.clock
                &&& commands == seq![
                    Command::ResizeSurface { width, height },
                    Command::SetViewport { width, height },
                    Command::AppResize { width, height },
                ]
            } else {
                after == state && commands.len() == 0
            }
        }),
{
}

/// No surface is ever created, resized, painted on or reported to the
/// application with a size that lacks pixels on an axis.
pub proof fn lemma_sizes_have_pixels(now: u64, inputs: Seq<Input>)
    ensures
        ({
            let (state, issued) = run(RuntimeState::initial(now), inputs);
            &&& state.wf()
            &&& forall|i: int| 0 <= i < issued.len() ==> has_pixels(#[trigger] issued[i])
        }),
    decreases inputs.len(),
{
    if inputs.len() > 0 {
        lemma_sizes_have_pixels(now, inputs.drop_last());
        let (before, issued) = run(RuntimeState::initial(now), inputs.drop_last());
        let (after, commands) = step(before, inputs.last());
        lemma_step_keeps_wf(before, inputs.last());
        assert forall|i: int| 0 <= i < commands.len() implies has_pixels(
            #[trigger] commands[i],
        ) by {}
    }
}

/// After any inputs, from the start of a run, the state is well formed and
/// the commands issued so far match its phase.
pub proof fn lemma_history(now: u64, inputs: Seq<Input>)
    ensures
        ({
            let (state, issued) = run(RuntimeState::initial(now), inputs);
            state.wf() && history_matches(state.phase, issued)
        }),
    decreases inputs.len(),
{
    if inputs.len() > 0 {
        lemma_history(now, inputs.drop_last());
        let (before, issued) = run(RuntimeState::initial(now), inputs.drop_last());
        let (after, commands) = step(before, inputs.last());
        lemma_history_step(before, issued, inputs.last());
    }
}

/// One transition keeps the history in step with the phase.
proof fn lemma_history_step(before: RuntimeState, issued: Seq<Command>, input: Input)
    requires
        before.wf(),
        history_matches(before.phase, issued),
    ensures
        history_matches(step(before, input).0.phase, issued + step(before, input).1),
{
    let (after, commands) = step(before, input);
    let all = issued + commands;
    if commands.len() == 0 {
        assert(all =~= issued);
        assert(after.phase == before.phase);
    } else if before.phase is Uninitialized {
        let surface = after.phase.surface().unwrap();
        assert(all =~= startup_commands(surface));
        assert(all.take(8) =~= startup_commands(surface));
        assert(all.skip(8) =~= Seq::<Command>::empty());
    } else if before.phase.active() {
        let start = choose|surface: SurfaceSize|
            surface.presentable() && #[trigger] startup_commands(surface) == issued.take(8);
        assert(all.take(8) =~= issued.take(8));
        assert(startup_commands(start) == all.take(8));
        assert(issued.take(issued.len() as int) =~= issued);
        if after.phase is ShuttingDown {
            assert(commands == shutdown_commands());
            assert(all.skip(issued.len() as int) =~= commands);
            assert(all.take(issued.len() as int) =~= issued);
        } else {
            assert(after.phase.active());
            assert(all.skip(all.len() as int) =~= Seq::<Command>::empty());
            assert(all.take(all.len() as int) =~= all);
            assert(no_shutdown(commands) && forall|i: int|
                0 <= i < commands.len() ==> !startup_only(#[trigger] commands[i]));
            assert(no_shutdown(all));
        }
    } else {
        assert(before.phase is ShuttingDown);
        assert(after.phase is Terminated);
        assert(commands == teardown_commands());
        let start = choose|surface: SurfaceSize|
            surface.presentable() && #[trigger] startup_commands(surface) == issued.take(8);
        assert(all.take(8) =~= issued.take(8));
        assert(startup_commands(start) == all.take(8));
        let body_end = issued.len() - 3;
        assert(all.skip(body_end) =~= issued.skip(body_end) + commands);
        assert(all.take(body_end) =~= issued.take(body_end));
    }
}

/// Shutdown ordering. In every run that has shut down, the cleanup hook is
/// the first shutdown command issued and the only cleanup; the release of
/// the overlay follows it directly, then the event loop is left; surface,
/// context and window are destroyed only after that, in this order, and
/// nothing is issued after the window is gone.
pub proof fn lemma_shutdown_ordering(now: u64, inputs: Seq<Input>)
    ensures
        ({
            let (state, issued) = run(RuntimeState::initial(now), inputs);
            let n = issued.len() as int;
            &&& state.phase is ShuttingDown ==> {
                &&& n >= 3
                &&& issued[n - 3] == Command::AppCleanup
                &&& issued[n - 2] == Command::DestroyOverlay
                &&& issued[n - 1] == Command::Exit
                &&& forall|i: int| 0 <= i < n - 3 ==> !(#[trigger] issued[i]).spec_is_shutdown()
            }
            &&& state.phase is Terminated ==> {
                &&& n >= 6
                &&& issued[n - 6] == Command::AppCleanup
                &&& issued[n - 5] == Command::DestroyOverlay
                &&& issued[n - 4] == Command::Exit
                &&& issued[n - 3] == Command::ReleaseSurface
                &&& issued[n - 2] == Command::ReleaseContext
                &&& issued[n - 1] == Command::ReleaseWindow
                &&& forall|i: int| 0 <= i < n - 6 ==> !(#[trigger] issued[i]).spec_is_shutdown()
            }
            &&& !(state.phase is ShuttingDown || state.phase is Terminated) ==> no_shutdown(
                issued,
            )
        }),
{
    lemma_history(now, inputs);
    let (state, issued) = run(RuntimeState::initial(now), inputs);
    let n = issued.len() as int;
    if state.phase is ShuttingDown {
        let tail = shutdown_commands();
        assert(issued.skip(n - 3) == tail);
        assert(issued[n - 3] == issued.skip(n - 3)[0]);
        assert(issued[n - 2] == issued.skip(n - 3)[1]);
        assert(issued[n - 1] == issued.skip(n - 3)[2]);
        assert forall|i: int| 0 <= i < n - 3 implies !(#[trigger] issued[i]).spec_is_shutdown() by {
            assert(issued.take(n - 3)[i] == issued[i]);
        }
    } else if state.phase is Terminated {
        let tail = shutdown_commands() + teardown_commands();
        assert(issued.skip(n - 6) == tail);
        assert(issued[n - 6] == issued.skip(n - 6)[0]);
        assert(issued[n - 5] == issued.skip(n - 6)[1]);
        assert(issued[n - 4] == issued.skip(n - 6)[2]);
        assert(issued[n - 3] == issued.skip(n - 6)[3]);
        assert(issued[n - 2] == issued.skip(n - 6)[4]);
        assert(issued[n - 1] == issued.skip(n - 6)[5]);
        assert forall|i: int| 0 <= i < n - 6 implies !(#[trigger] issued[i]).spec_is_shutdown() by {
            assert(issued.take(n - 6)[i] == issued[i]);
        }
    } else if state.phase is Uninitialized {
    } else {
        assert(issued.take(n) =~= issued);
    }
}

/// Once a run has terminated, no input changes its state or issues anything.
pub proof fn lemma_terminated_is_final(state: RuntimeState, input: Input)
    requires
        state.phase is Terminated,
    ensures
        step(state, input) == (state, Seq::<Command>::empty()),
{
}

/// After a shutdown only the end of the event loop is acted on.
pub proof fn lemma_shutting_down_ignores_events(state: RuntimeState, input: Input)
    requires
        state.phase is ShuttingDown,
        !(input is LoopEnded),
    ensures
        step(state, input) == (state, Seq::<Command>::empty()),
{
}

/// Frame ordering over a whole run: the update, render, UI-populate,
/// overlay-paint and present operations ever issued form whole frames, each
/// in exactly this order.
pub proof fn lemma_frames_are_ordered(now: u64, inputs: Seq<Input>)
    ensures
        whole_frames(stages(run(RuntimeState::initial(now), inputs).1)),
    decreases inputs.len(),
{
    let start = RuntimeState::initial(now);
    if inputs.len() == 0 {
        assert(stages(Seq::<Command>::empty()) =~= Seq::<FrameStage>::empty());
    } else {
        lemma_frames_are_ordered(now, inputs.drop_last());
        let (before, issued) = run(start, inputs.drop_last());
        let (after, commands) = step(before, inputs.last());
        lemma_stages_concat(issued, commands);
        lemma_step_stages(before, inputs.last());
        let earlier = stages(issued);
        let added = stages(commands);
        let observed = earlier + added;
        if added.len() == 0 {
            assert(observed =~= earlier);
        } else {
            assert forall|i: int| 0 <= i < observed.len() implies #[trigger] observed[i]
                == frame_stages()[i % 5] by {
                if i >= earlier.len() {
                    let j = i - earlier.len();
                    assert(observed[i] == added[j]);
                    assert(i % 5 == j) by (nonlinear_arith)
                        requires
                            earlier.len() % 5 == 0,
                            i == earlier.len() + j,
                            0 <= j < 5,
                    ;
                }
            }
            assert(observed.len() % 5 == 0) by (nonlinear_arith)
                requires
                    earlier.len() % 5 == 0,
                    observed.len() == earlier.len() + 5,
            ;
        }
    }
}

/// A single transition issues the stages of one whole frame or none.
proof fn lemma_step_stages(state: RuntimeState, input: Input)
    ensures
        stages(step(state, input).1) == frame_stages() || stages(step(state, input).1).len() == 0,
{
    let commands = step(state, input).1;
    match (input, state.phase.surface()) {
        (
            Input::Window { event: Event::RedrawRequested { now }, consumed: false },
            Some(surface),
        ) => {
            lemma_frame_order(state.clock.times_at(now), surface);
        },
        _ => {
            lemma_no_stages(commands);
        },
    }
}

/// Commands outside the frame stages carry out no stage.
proof fn lemma_no_stages(commands: Seq<Command>)
    requires
        forall|i: int| 0 <= i < commands.len() ==> (#[trigger] commands[i]).spec_stage() is None,
    ensures
        stages(commands).len() == 0,
    decreases commands.len(),
{
    if commands.len() > 0 {
        lemma_no_stages(commands.drop_last());
    }
}

} // verus!
