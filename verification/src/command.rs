//! The operations that the runtime asks its host to perform.

use vstd::prelude::*;

verus! {

/// One operation on the window, the GPU, the user interface or the
/// application. A transition of the runtime returns a list of them; the host
/// performs the list front to back before it hands over the next event.
#[derive(Clone, Copy, Debug, PartialEq, Eq, Structural)]
pub enum Command {
    /// Create the presentable surface of the window with this size.
    CreateSurface { width: u32, height: u32 },
    /// Make the rendering context current on this thread, bound to the surface.
    MakeCurrent,
    /// Bind the GPU entry points of the current context.
    LoadGpuEntryPoints,
    /// Turn on GPU diagnostic messages where the build has them.
    EnableDiagnostics,
    /// Create the overlay compositor and its GPU resources.
    CreateOverlay,
    /// Create the UI context and the state of its input layer.
    CreateUi,
    /// Application hook `initialize`.
    AppInitialize,
    /// Application hook `on_resize`.
    AppResize { width: u32, height: u32 },
    /// Application hook `update`; the time since the last frame in nanoseconds.
    AppUpdate { delta: u64 },
    /// Application hook `render`; the time since the start in nanoseconds.
    AppRender { elapsed: u64 },
    /// Application hook that fills the UI panels of the running pass.
    AppRenderOverlay,
    /// Application hook `cleanup`.
    AppCleanup,
    /// Resize the surface.
    ResizeSurface { width: u32, height: u32 },
    /// Set the GPU output viewport to the full surface.
    SetViewport { width: u32, height: u32 },
    /// Begin a UI pass with the input gathered since the previous one.
    BeginUiPass,
    /// End the UI pass and keep its output for this frame.
    EndUiPass,
    /// Hand the platform requests of the UI output (cursor, clipboard) on.
    HandlePlatformOutput,
    /// Turn the shapes of the UI output into draw primitives.
    Tessellate,
    /// Run the overlay pass for the UI output on a surface of this size.
    ComposeOverlay { width: u32, height: u32 },
    /// Present the surface.
    Present,
    /// Ask the platform for another redraw.
    RequestRedraw,
    /// Release the GPU resources of the overlay compositor.
    DestroyOverlay,
    /// Leave the event loop.
    Exit,
    /// Destroy the surface.
    ReleaseSurface,
    /// Destroy the rendering context.
    ReleaseContext,
    /// Destroy the window.
    ReleaseWindow,
}

/// The five steps of a frame whose order is fixed.
#[derive(Clone, Copy, Debug, PartialEq, Eq, Structural)]
pub enum FrameStage {
    Update,
    Render,
    UiPopulate,
    OverlayPaint,
    Present,
}

/// How a failing command is treated.
#[derive(Clone, Copy, Debug, PartialEq, Eq, Structural)]
pub enum FailureClass {
    /// The command reports no failure.
    Infallible,
    /// A failure ends the process before the loop starts.
    StartupFatal,
    /// A failure is reported and the remaining commands are still performed.
    Recoverable,
    /// A failure is reported and shutdown proceeds.
    Shutdown,
}

impl Command {
    /// The frame stage that a command carries out, if it is one of the five.
    pub open spec fn spec_stage(self) -> Option<FrameStage> {
        match self {
            Command::AppUpdate { .. } => Some(FrameStage::Update),
            Command::AppRender { .. } => Some(FrameStage::Render),
            Command::AppRenderOverlay => Some(FrameStage::UiPopulate),
            Command::ComposeOverlay { .. } => Some(FrameStage::OverlayPaint),
            Command::Present => Some(FrameStage::Present),
            _ => None,
        }
    }

    /// The frame stage that this command carries out, if it is one of the five.
    #[verifier::when_used_as_spec(spec_stage)]
    pub fn stage(self) -> (stage: Option<FrameStage>)
        ensures
            stage == self.spec_stage(),
    {
        match self {
            Command::AppUpdate { .. } => Some(FrameStage::Update),
            Command::AppRender { .. } => Some(FrameStage::Render),
            Command::AppRenderOverlay => Some(FrameStage::UiPopulate),
            Command::ComposeOverlay { .. } => Some(FrameStage::OverlayPaint),
            Command::Present => Some(FrameStage::Present),
            _ => None,
        }
    }

    /// Whether a command belongs to shutdown: the cleanup hook, the release of
    /// the overlay, leaving the loop, or the destruction of surface, context
    /// or window.
    pub open spec fn spec_is_shutdown(self) -> bool {
        self == Command::AppCleanup || self == Command::DestroyOverlay || self == Command::Exit
            || self.spec_is_teardown()
    }

    /// Whether a command destroys the surface, the context or the window.
    pub open spec fn spec_is_teardown(self) -> bool {
        self == Command::ReleaseSurface || self == Command::ReleaseContext || self
            == Command::ReleaseWindow
    }

    /// Whether this command belongs to shutdown.
    #[verifier::when_used_as_spec(spec_is_shutdown)]
    pub fn is_shutdown(self) -> (b: bool)
        ensures
            b == self.spec_is_shutdown(),
    {
        match self {
            Command::AppCleanup | Command::DestroyOverlay | Command::Exit => true,
            Command::ReleaseSurface | Command::ReleaseContext | Command::ReleaseWindow => true,
            _ => false,
        }
    }

    /// Whether this command destroys the surface, the context or the window.
    #[verifier::when_used_as_spec(spec_is_teardown)]
    pub fn is_teardown(self) -> (b: bool)
        ensures
            b == self.spec_is_teardown(),
    {
        match self {
            Command::ReleaseSurface | Command::ReleaseContext | Command::ReleaseWindow => true,
            _ => false,
        }
    }

    /// The failure class of a command.
    pub open spec fn spec_failure_class(self) -> FailureClass {
        match self {
            Command::CreateSurface { .. } | Command::MakeCurrent | Command::CreateOverlay =>
                FailureClass::StartupFatal,
            Command::AppInitialize
            | Command::AppResize { .. }
            | Command::AppUpdate { .. }
            | Command::AppRender { .. }
            | Command::AppRenderOverlay
            | Command::Present => FailureClass::Recoverable,
            Command::AppCleanup => FailureClass::Shutdown,
            _ => FailureClass::Infallible,
        }
    }

    /// The failure class of this command: creating the surface, making the
    /// context current and creating the overlay are fatal at startup; the
    /// application hooks and the presentation are recoverable; the cleanup
    /// hook never holds shutdown up; the rest report no failure.
    #[verifier::when_used_as_spec(spec_failure_class)]
    pub fn failure_class(self) -> (class: FailureClass)
        ensures
            class == self.spec_failure_class(),
    {
        match self {
            Command::CreateSurface { .. } | Command::MakeCurrent | Command::CreateOverlay =>
                FailureClass::StartupFatal,
            Command::AppInitialize
            | Command::AppResize { .. }
            | Command::AppUpdate { .. }
            | Command::AppRender { .. }
            | Command::AppRenderOverlay
            | Command::Present => FailureClass::Recoverable,
            Command::AppCleanup => FailureClass::Shutdown,
            _ => FailureClass::Infallible,
        }
    }
}

impl Command {
    /// The words that head the report of a failure of a command.
    pub open spec fn failure_heading(self) -> Option<Seq<char>> {
        match self {
            Command::AppInitialize => Some("Initialization error"@),
            Command::AppResize { .. } => Some("Resize error"@),
            Command::AppUpdate { .. } => Some("Update error"@),
            Command::AppRender { .. } => Some("Render error"@),
            Command::AppRenderOverlay => Some("UI render error"@),
            Command::Present => Some("Swap buffers error"@),
            Command::AppCleanup => Some("Cleanup error"@),
            _ => None,
        }
    }

    /// The words that head the report of a failure of this command on the
    /// diagnostic stream. The commands whose failure is reported and
    /// survived have one, the others none.
    pub fn failure_label(self) -> (label: Option<&'static str>)
        ensures
            label is Some <==> self.spec_failure_class() == FailureClass::Recoverable
                || self.spec_failure_class() == FailureClass::Shutdown,
            match label {
                Some(text) => self.failure_heading() == Some(text@),
                None => self.failure_heading() is None,
            },
    {
        match self {
            Command::AppInitialize => Some("Initialization error"),
            Command::AppResize { .. } => Some("Resize error"),
            Command::AppUpdate { .. } => Some("Update error"),
            Command::AppRender { .. } => Some("Render error"),
            Command::AppRenderOverlay => Some("UI render error"),
            Command::Present => Some("Swap buffers error"),
            Command::AppCleanup => Some("Cleanup error"),
            _ => None,
        }
    }
}

impl FailureClass {
    /// Whether the host goes on with the next command after a failure of this
    /// class: always, except at startup.
    pub open spec fn spec_continues(self) -> bool {
        self != FailureClass::StartupFatal
    }

    /// Whether the host goes on with the next command after such a failure.
    #[verifier::when_used_as_spec(spec_continues)]
    pub fn continues(self) -> (b: bool)
        ensures
            b == self.spec_continues(),
    {
        match self {
            FailureClass::StartupFatal => false,
            _ => true,
        }
    }
}

/// The stages that a list of commands carries out, in order.
pub open spec fn stages(commands: Seq<Command>) -> Seq<FrameStage>
    decreases commands.len(),
{
    if commands.len() == 0 {
        Seq::empty()
    } else {
        let before = stages(commands.drop_last());
        match commands.last().spec_stage() {
            Some(stage) => before.push(stage),
            None => before,
        }
    }
}

/// `stages` reads a list one command at a time.
pub proof fn lemma_stages_push(commands: Seq<Command>, command: Command)
    ensures
        stages(commands.push(command)) == match command.spec_stage() {
            Some(stage) => stages(commands).push(stage),
            None => stages(commands),
        },
{
    assert(commands.push(command).drop_last() =~= commands);
}

/// `stages` of a prefix that is one command longer.
pub proof fn lemma_stages_take(commands: Seq<Command>, k: int)
    requires
        0 <= k < commands.len(),
    ensures
        stages(commands.take(k + 1)) == match commands[k].spec_stage() {
            Some(stage) => stages(commands.take(k)).push(stage),
            None => stages(commands.take(k)),
        },
{
    assert(commands.take(k + 1) =~= commands.take(k).push(commands[k]));
    lemma_stages_push(commands.take(k), commands[k]);
}

/// `stages` distributes over concatenation.
pub proof fn lemma_stages_concat(first: Seq<Command>, second: Seq<Command>)
    ensures
        stages(first + second) == stages(first) + stages(second),
    decreases second.len(),
{
    if second.len() == 0 {
        assert(first + second =~= first);
        assert(stages(first) + stages(second) =~= stages(first));
    } else {
        let head = second.drop_last();
        lemma_stages_concat(first, head);
        assert((first + second).drop_last() =~= first + head);
        assert((first + second).last() == second.last());
        match second.last().spec_stage() {
            Some(stage) => {
                assert(stages(first + second) == stages(first + head).push(stage));
                assert((stages(first) + stages(head)).push(stage) =~= stages(first) + stages(
                    head,
                ).push(stage));
            },
            None => {},
        }
    }
}

} // verus!
