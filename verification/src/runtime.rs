//! The application runtime: the lifecycle state machine of the host and the
//! operations that each platform event leads to.

use crate::clock::{FrameClock, FrameTimes};
use crate::command::{lemma_stages_take, stages, Command, FrameStage};
use crate::event::{Event, Key};
use vstd::prelude::*;

verus! {

/// Pixel dimensions of the presentable surface.
#[derive(Clone, Copy, Debug, PartialEq, Eq, Structural)]
pub struct SurfaceSize {
    pub width: u32,
    pub height: u32,
}

impl SurfaceSize {
    /// A surface can be presented only if neither dimension is zero.
    pub open spec fn presentable(self) -> bool {
        self.width > 0 && self.height > 0
    }
}

/// The lifecycle of a run. `Ready` and `Running` hold the size of the
/// surface, which exists in exactly these two phases and while shutting down.
#[derive(Clone, Copy, Debug, PartialEq, Eq, Structural)]
pub enum Phase {
    /// No window, context or surface yet.
    Uninitialized,
    /// Window, context, surface, overlay and UI exist; no frame was drawn yet.
    Ready { surface: SurfaceSize },
    /// At least one frame was drawn.
    Running { surface: SurfaceSize },
    /// The application was cleaned up, the overlay released and the event
    /// loop told to end; surface, context and window still exist.
    ShuttingDown,
    /// Everything is torn down. Nothing leaves this phase.
    Terminated,
}

impl Phase {
    /// The surface, in the phases that dispatch events.
    pub open spec fn surface(self) -> Option<SurfaceSize> {
        match self {
            Phase::Ready { surface } => Some(surface),
            Phase::Running { surface } => Some(surface),
            _ => None,
        }
    }

    /// Events are dispatched in `Ready` and `Running` only.
    pub open spec fn active(self) -> bool {
        self is Ready || self is Running
    }

    /// The same phase with another surface size; other phases have none.
    pub open spec fn resized(self, surface: SurfaceSize) -> Phase {
        match self {
            Phase::Ready { .. } => Phase::Ready { surface },
            Phase::Running { .. } => Phase::Running { surface },
            _ => self,
        }
    }

    /// The surface of an active phase is presentable.
    pub open spec fn wf(self) -> bool {
        match self.surface() {
            Some(surface) => surface.presentable(),
            None => true,
        }
    }
}

/// Why startup was refused.
#[derive(Clone, Copy, Debug, PartialEq, Eq, Structural)]
pub enum StartupError {
    /// The new window reports a client area without pixels, so no surface can
    /// be created for it.
    ZeroSizedWindow,
}

/// The state of the runtime as contracts see it.
pub struct RuntimeState {
    pub phase: Phase,
    pub clock: FrameClock,
}

/// What startup performs once window and context exist, in order: the rest of
/// the creation, then the application's `initialize` and its first `on_resize`.
pub open spec fn startup_commands(surface: SurfaceSize) -> Seq<Command> {
    seq![
        Command::CreateSurface { width: surface.width, height: surface.height },
        Command::MakeCurrent,
        Command::LoadGpuEntryPoints,
        Command::EnableDiagnostics,
        Command::CreateOverlay,
        Command::CreateUi,
        Command::AppInitialize,
        Command::AppResize { width: surface.width, height: surface.height },
    ]
}

/// What a resize to a presentable size performs.
pub open spec fn resize_commands(surface: SurfaceSize) -> Seq<Command> {
    seq![
        Command::ResizeSurface { width: surface.width, height: surface.height },
        Command::SetViewport { width: surface.width, height: surface.height },
        Command::AppResize { width: surface.width, height: surface.height },
    ]
}

/// What one frame performs.
pub open spec fn frame_commands(times: FrameTimes, surface: SurfaceSize) -> Seq<Command> {
    seq![
        Command::AppUpdate { delta: times.delta },
        Command::AppRender { elapsed: times.elapsed },
        Command::BeginUiPass,
        Command::AppRenderOverlay,
        Command::EndUiPass,
        Command::HandlePlatformOutput,
        Command::Tessellate,
        Command::ComposeOverlay { width: surface.width, height: surface.height },
        Command::Present,
        Command::RequestRedraw,
    ]
}

/// What a close request or the Escape key performs.
pub open spec fn shutdown_commands() -> Seq<Command> {
    seq![Command::AppCleanup, Command::DestroyOverlay, Command::Exit]
}

/// What the end of the event loop performs: surface, context and window go
/// in the reverse of the order in which they were created.
pub open spec fn teardown_commands() -> Seq<Command> {
    seq![Command::ReleaseSurface, Command::ReleaseContext, Command::ReleaseWindow]
}

/// The stages of a frame, in their fixed order.
pub open spec fn frame_stages() -> Seq<FrameStage> {
    seq![
        FrameStage::Update,
        FrameStage::Render,
        FrameStage::UiPopulate,
        FrameStage::OverlayPaint,
        FrameStage::Present,
    ]
}

impl RuntimeState {
    /// The state in which a run begins.
    pub open spec fn initial(now: u64) -> RuntimeState {
        RuntimeState { phase: Phase::Uninitialized, clock: FrameClock { start: now, last: now } }
    }

    pub open spec fn wf(self) -> bool {
        self.phase.wf()
    }

    /// The platform's "resumed" signal, with the client size of the window.
    /// The first one with a presentable size starts the runtime up; any other
    /// changes nothing.
    pub open spec fn resume(self, width: u32, height: u32) -> (RuntimeState, Seq<Command>) {
        let surface = SurfaceSize { width, height };
        if self.phase is Uninitialized && surface.presentable() {
            (RuntimeState { phase: Phase::Ready { surface }, ..self }, startup_commands(surface))
        } else {
            (self, Seq::empty())
        }
    }

    /// A window event that the UI input layer has seen first. One that it
    /// consumed, and any event outside `Ready` and `Running`, changes nothing.
    pub open spec fn handle(self, event: Event, consumed: bool) -> (RuntimeState, Seq<Command>) {
        match self.phase.surface() {
            Some(surface) if !consumed => match event {
                Event::CloseRequested => (
                    RuntimeState { phase: Phase::ShuttingDown, ..self },
                    shutdown_commands(),
                ),
                Event::KeyboardInput { key: Key::Escape } => (
                    RuntimeState { phase: Phase::ShuttingDown, ..self },
                    shutdown_commands(),
                ),
                Event::Resized { width, height } => {
                    let resized = SurfaceSize { width, height };
                    if resized.presentable() {
                        (
                            RuntimeState { phase: self.phase.resized(resized), ..self },
                            resize_commands(resized),
                        )
                    } else {
                        (self, Seq::empty())
                    }
                },
                Event::RedrawRequested { now } => (
                    RuntimeState {
                        phase: Phase::Running { surface },
                        clock: self.clock.advanced(now),
                    },
                    frame_commands(self.clock.times_at(now), surface),
                ),
                _ => (self, Seq::empty()),
            },
            _ => (self, Seq::empty()),
        }
    }

    /// The end of the event loop. After a shutdown it tears the rest down; in
    /// any other phase it changes nothing.
    pub open spec fn finish(self) -> (RuntimeState, Seq<Command>) {
        if self.phase is ShuttingDown {
            (RuntimeState { phase: Phase::Terminated, ..self }, teardown_commands())
        } else {
            (self, Seq::empty())
        }
    }
}

/// The runtime of one run: its lifecycle phase, the size of its surface and
/// its frame clock.
pub struct Runtime {
    phase: Phase,
    clock: FrameClock,
}

impl View for Runtime {
    type V = RuntimeState;

    closed spec fn view(&self) -> RuntimeState {
        RuntimeState { phase: self.phase, clock: self.clock }
    }
}

impl Runtime {
    #[verifier::type_invariant]
    spec fn surface_is_presentable(self) -> bool {
        self.phase.wf()
    }

    /// A runtime whose clock starts at `now`, with nothing created yet.
    pub fn new(now: u64) -> (runtime: Runtime)
        ensures
            runtime@ == RuntimeState::initial(now),
    {
        Runtime { phase: Phase::Uninitialized, clock: FrameClock::new(now) }
    }

    /// The current phase.
    pub fn phase(&self) -> (phase: Phase)
        ensures
            phase == self@.phase,
            phase.wf(),
    {
        proof {
            use_type_invariant(self);
        }
        self.phase
    }

    /// The frame clock.
    pub fn clock(&self) -> (clock: FrameClock)
        ensures
            clock == self@.clock,
    {
        self.clock
    }

    /// Whether window and context still have to be created: before the first
    /// "resumed" signal only.
    pub fn needs_startup(&self) -> (b: bool)
        ensures
            b == (self@.phase is Uninitialized),
    {
        match self.phase {
            Phase::Uninitialized => true,
            _ => false,
        }
    }

    /// Whether window events are dispatched, and so offered to the UI input
    /// layer: in `Ready` and `Running`.
    pub fn accepts_events(&self) -> (b: bool)
        ensures
            b == self@.phase.active(),
    {
        match self.phase {
            Phase::Ready { .. } | Phase::Running { .. } => true,
            _ => false,
        }
    }

    /// The size of the surface while events are dispatched. It is never
    /// zero on either axis.
    pub fn surface_size(&self) -> (size: Option<SurfaceSize>)
        ensures
            size == self@.phase.surface(),
            size matches Some(surface) ==> surface.presentable(),
    {
        proof {
            use_type_invariant(self);
        }
        match self.phase {
            Phase::Ready { surface } => Some(surface),
            Phase::Running { surface } => Some(surface),
            _ => None,
        }
    }

    /// Handles the platform's "resumed" signal for a window whose client area
    /// is `width` by `height` pixels.
    ///
    /// Before startup, a window with pixels moves the runtime to `Ready` and
    /// returns the startup operations; a window without pixels is refused and
    /// nothing changes. After startup the signal is ignored.
    pub fn resume(&mut self, width: u32, height: u32) -> (result: Result<
        Vec<Command>,
        StartupError,
    >)
        ensures
            final(self)@.wf(),
            result is Err <==> old(self)@.phase is Uninitialized && (width == 0 || height == 0),
            result matches Err(error) ==> error == StartupError::ZeroSizedWindow && final(self)@
                == old(self)@,
            result matches Ok(commands) ==> (final(self)@, commands@) == old(self)@.resume(
                width,
                height,
            ),
    {
        proof {
            use_type_invariant(&*self);
        }
        match self.phase {
            Phase::Uninitialized => {
                if width == 0 || height == 0 {
                    Err(StartupError::ZeroSizedWindow)
                } else {
                    let surface = SurfaceSize { width, height };
                    self.phase = Phase::Ready { surface };
                    Ok(startup_plan(surface))
                }
            },
            _ => Ok(Vec::new()),
        }
    }

    /// Handles a window event. `consumed` says whether the UI input layer,
    /// which sees every event first, claimed it.
    ///
    /// A consumed event reaches no built-in handling. Otherwise, while events
    /// are dispatched: a close request or the Escape key shuts down; a resize
    /// to a size with pixels resizes surface and viewport and tells the
    /// application, one without pixels is ignored and the surface stays as it
    /// is; a redraw request runs one frame.
    pub fn handle_event(&mut self, event: Event, consumed: bool) -> (commands: Vec<Command>)
        ensures
            (final(self)@, commands@) == old(self)@.handle(event, consumed),
            final(self)@.wf(),
            consumed ==> final(self)@ == old(self)@ && commands@.len() == 0,
            !consumed && old(self)@.phase.active() ==> match event {
                Event::Resized { width, height } => if width == 0 || height == 0 {
                    final(self)@ == old(self)@ && commands@.len() == 0
                } else {
                    &&& final(self)@.phase.surface() == Some(SurfaceSize { width, height })
                    &&& final(self)@.clock == old(self)@.clock
                    &&& commands@ == seq![
                        Command::ResizeSurface { width, height },
                        Command::SetViewport { width, height },
                        Command::AppResize { width, height },
                    ]
                },
                Event::RedrawRequested { .. } => stages(commands@) == frame_stages(),
                _ => true,
            },
    {
        proof {
            use_type_invariant(&*self);
        }
        if consumed {
            return Vec::new();
        }
        let surface = match self.phase {
            Phase::Ready { surface } => surface,
            Phase::Running { surface } => surface,
            _ => {
                return Vec::new();
            },
        };
        match event {
            Event::CloseRequested => {
                self.phase = Phase::ShuttingDown;
                shutdown_plan()
            },
            Event::KeyboardInput { key: Key::Escape } => {
                self.phase = Phase::ShuttingDown;
                shutdown_plan()
            },
            Event::Resized { width, height } => {
                if width == 0 || height == 0 {
                    return Vec::new();
                }
                let resized = SurfaceSize { width, height };
                self.phase = match self.phase {
                    Phase::Ready { .. } => Phase::Ready { surface: resized },
                    _ => Phase::Running { surface: resized },
                };
                resize_plan(resized)
            },
            Event::RedrawRequested { now } => {
                let mut clock = self.clock;
                let times = clock.tick(now);
                self.clock = clock;
                self.phase = Phase::Running { surface };
                proof {
                    lemma_frame_order(times, surface);
                }
                frame_plan(times, surface)
            },
            _ => Vec::new(),
        }
    }

    /// Handles the end of the event loop: after a shutdown it returns the
    /// teardown of surface, context and window and moves to `Terminated`; in
    /// any other phase it does nothing.
    pub fn finish(&mut self) -> (commands: Vec<Command>)
        ensures
            (final(self)@, commands@) == old(self)@.finish(),
            final(self)@.wf(),
    {
        proof {
            use_type_invariant(&*self);
        }
        match self.phase {
            Phase::ShuttingDown => {
                self.phase = Phase::Terminated;
                teardown_plan()
            },
            _ => Vec::new(),
        }
    }
}

fn startup_plan(surface: SurfaceSize) -> (plan: Vec<Command>)
    ensures
        plan@ == startup_commands(surface),
{
    let mut plan: Vec<Command> = Vec::new();
    plan.push(Command::CreateSurface { width: surface.width, height: surface.height });
    plan.push(Command::MakeCurrent);
    plan.push(Command::LoadGpuEntryPoints);
    plan.push(Command::EnableDiagnostics);
    plan.push(Command::CreateOverlay);
    plan.push(Command::CreateUi);
    plan.push(Command::AppInitialize);
    plan.push(Command::AppResize { width: surface.width, height: surface.height });
    assert(plan@ =~= startup_commands(surface));
    plan
}

fn resize_plan(surface: SurfaceSize) -> (plan: Vec<Command>)
    ensures
        plan@ == resize_commands(surface),
{
    let mut plan: Vec<Command> = Vec::new();
    plan.push(Command::ResizeSurface { width: surface.width, height: surface.height });
    plan.push(Command::SetViewport { width: surface.width, height: surface.height });
    plan.push(Command::AppResize { width: surface.width, height: surface.height });
    assert(plan@ =~= resize_commands(surface));
    plan
}

fn frame_plan(times: FrameTimes, surface: SurfaceSize) -> (plan: Vec<Command>)
    ensures
        plan@ == frame_commands(times, surface),
{
    let mut plan: Vec<Command> = Vec::new();
    plan.push(Command::AppUpdate { delta: times.delta });
    plan.push(Command::AppRender { elapsed: times.elapsed });
    plan.push(Command::BeginUiPass);
    plan.push(Command::AppRenderOverlay);
    plan.push(Command::EndUiPass);
    plan.push(Command::HandlePlatformOutput);
    plan.push(Command::Tessellate);
    plan.push(Command::ComposeOverlay { width: surface.width, height: surface.height });
    plan.push(Command::Present);
    plan.push(Command::RequestRedraw);
    assert(plan@ =~= frame_commands(times, surface));
    plan
}

fn shutdown_plan() -> (plan: Vec<Command>)
    ensures
        plan@ == shutdown_commands(),
{
    let mut plan: Vec<Command> = Vec::new();
    plan.push(Command::AppCleanup);
    plan.push(Command::DestroyOverlay);
    plan.push(Command::Exit);
    assert(plan@ =~= shutdown_commands());
    plan
}

fn teardown_plan() -> (plan: Vec<Command>)
    ensures
        plan@ == teardown_commands(),
{
    let mut plan: Vec<Command> = Vec::new();
    plan.push(Command::ReleaseSurface);
    plan.push(Command::ReleaseContext);
    plan.push(Command::ReleaseWindow);
    assert(plan@ =~= teardown_commands());
    plan
}

/// In a frame the application is updated, then rendered, then the UI is
/// populated, then the overlay painted, then the surface presented, and no
/// stage occurs twice.
pub proof fn lemma_frame_order(times: FrameTimes, surface: SurfaceSize)
    ensures
        stages(frame_commands(times, surface)) == frame_stages(),
{
    let frame = frame_commands(times, surface);
    assert(stages(frame.take(0)) =~= Seq::<FrameStage>::empty());
    lemma_stages_take(frame, 0);
    lemma_stages_take(frame, 1);
    lemma_stages_take(frame, 2);
    lemma_stages_take(frame, 3);
    lemma_stages_take(frame, 4);
    lemma_stages_take(frame, 5);
    lemma_stages_take(frame, 6);
    lemma_stages_take(frame, 7);
    lemma_stages_take(frame, 8);
    lemma_stages_take(frame, 9);
    assert(frame.take(10) =~= frame);
    assert(stages(frame) =~= frame_stages());
}

} // verus!
