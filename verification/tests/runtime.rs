use app_core::clock::{FrameClock, FrameTimes};
use app_core::command::{Command, FailureClass, FrameStage};
use app_core::event::{Event, Key};
use app_core::runtime::{Phase, Runtime, StartupError, SurfaceSize};

fn started(width: u32, height: u32) -> Runtime {
    let mut runtime = Runtime::new(0);
    runtime.resume(width, height).unwrap();
    runtime
}

#[test]
fn new_runtime_is_uninitialized() {
    let runtime = Runtime::new(42);
    assert_eq!(runtime.phase(), Phase::Uninitialized);
    assert!(runtime.needs_startup());
    assert!(!runtime.accepts_events());
    assert_eq!(runtime.surface_size(), None);
    assert_eq!(runtime.clock(), FrameClock { start: 42, last: 42 });
}

#[test]
fn first_resume_starts_up_in_creation_order() {
    let mut runtime = Runtime::new(0);
    let commands = runtime.resume(800, 600).unwrap();
    assert_eq!(
        commands,
        vec![
            Command::CreateSurface { width: 800, height: 600 },
            Command::MakeCurrent,
            Command::LoadGpuEntryPoints,
            Command::EnableDiagnostics,
            Command::CreateOverlay,
            Command::CreateUi,
            Command::AppInitialize,
            Command::AppResize { width: 800, height: 600 },
        ]
    );
    assert_eq!(runtime.phase(), Phase::Ready { surface: SurfaceSize { width: 800, height: 600 } });
    assert!(!runtime.needs_startup());
    assert!(runtime.accepts_events());
}

#[test]
fn second_resume_is_ignored() {
    let mut runtime = started(800, 600);
    assert_eq!(runtime.resume(1024, 768), Ok(vec![]));
    assert_eq!(runtime.surface_size(), Some(SurfaceSize { width: 800, height: 600 }));
    assert_eq!(runtime.resume(0, 0), Ok(vec![]));
    assert_eq!(runtime.surface_size(), Some(SurfaceSize { width: 800, height: 600 }));
}

#[test]
fn resume_without_pixels_is_refused() {
    let mut runtime = Runtime::new(0);
    assert_eq!(runtime.resume(0, 600), Err(StartupError::ZeroSizedWindow));
    assert_eq!(runtime.resume(800, 0), Err(StartupError::ZeroSizedWindow));
    assert_eq!(runtime.resume(0, 0), Err(StartupError::ZeroSizedWindow));
    assert_eq!(runtime.phase(), Phase::Uninitialized);
    assert!(runtime.resume(1, 1).is_ok());
}

#[test]
fn events_before_startup_are_ignored() {
    let mut runtime = Runtime::new(0);
    for event in [
        Event::CloseRequested,
        Event::Resized { width: 10, height: 10 },
        Event::KeyboardInput { key: Key::Escape },
        Event::RedrawRequested { now: 5 },
        Event::Other,
    ] {
        assert_eq!(runtime.handle_event(event, false), vec![]);
        assert_eq!(runtime.phase(), Phase::Uninitialized);
    }
    assert_eq!(runtime.clock(), FrameClock { start: 0, last: 0 });
}

#[test]
fn resize_without_pixels_keeps_the_surface() {
    for (width, height) in [(0, 0), (0, 480), (640, 0)] {
        let mut runtime = started(800, 600);
        assert_eq!(runtime.handle_event(Event::Resized { width, height }, false), vec![]);
        assert_eq!(runtime.surface_size(), Some(SurfaceSize { width: 800, height: 600 }));
    }
}

#[test]
fn resize_with_pixels_updates_surface_and_tells_the_app_once() {
    let mut runtime = started(800, 600);
    let commands = runtime.handle_event(Event::Resized { width: 1, height: 4000 }, false);
    assert_eq!(
        commands,
        vec![
            Command::ResizeSurface { width: 1, height: 4000 },
            Command::SetViewport { width: 1, height: 4000 },
            Command::AppResize { width: 1, height: 4000 },
        ]
    );
    assert_eq!(runtime.surface_size(), Some(SurfaceSize { width: 1, height: 4000 }));
    let told = commands.iter().filter(|c| matches!(c, Command::AppResize { .. })).count();
    assert_eq!(told, 1);
    assert_eq!(runtime.phase(), Phase::Ready { surface: SurfaceSize { width: 1, height: 4000 } });
}

#[test]
fn resize_while_running_stays_running() {
    let mut runtime = started(800, 600);
    runtime.handle_event(Event::RedrawRequested { now: 1 }, false);
    runtime.handle_event(Event::Resized { width: 320, height: 200 }, false);
    assert_eq!(runtime.phase(), Phase::Running { surface: SurfaceSize { width: 320, height: 200 } });
}

#[test]
fn frame_issues_operations_in_order() {
    let mut runtime = Runtime::new(1_000);
    runtime.resume(800, 600).unwrap();
    let commands = runtime.handle_event(Event::RedrawRequested { now: 17_000 }, false);
    assert_eq!(
        commands,
        vec![
            Command::AppUpdate { delta: 16_000 },
            Command::AppRender { elapsed: 16_000 },
            Command::BeginUiPass,
            Command::AppRenderOverlay,
            Command::EndUiPass,
            Command::HandlePlatformOutput,
            Command::Tessellate,
            Command::ComposeOverlay { width: 800, height: 600 },
            Command::Present,
            Command::RequestRedraw,
        ]
    );
    let stages: Vec<FrameStage> = commands.iter().filter_map(|c| c.stage()).collect();
    assert_eq!(
        stages,
        vec![
            FrameStage::Update,
            FrameStage::Render,
            FrameStage::UiPopulate,
            FrameStage::OverlayPaint,
            FrameStage::Present,
        ]
    );
    assert_eq!(runtime.phase(), Phase::Running { surface: SurfaceSize { width: 800, height: 600 } });
    assert_eq!(runtime.clock(), FrameClock { start: 1_000, last: 17_000 });
}

#[test]
fn second_frame_measures_from_the_first() {
    let mut runtime = Runtime::new(1_000);
    runtime.resume(800, 600).unwrap();
    runtime.handle_event(Event::RedrawRequested { now: 17_000 }, false);
    let commands = runtime.handle_event(Event::RedrawRequested { now: 50_000 }, false);
    assert_eq!(commands[0], Command::AppUpdate { delta: 33_000 });
    assert_eq!(commands[1], Command::AppRender { elapsed: 49_000 });
}

#[test]
fn frame_paints_on_the_resized_surface() {
    let mut runtime = started(800, 600);
    runtime.handle_event(Event::Resized { width: 1024, height: 768 }, false);
    let commands = runtime.handle_event(Event::RedrawRequested { now: 1 }, false);
    assert_eq!(commands[7], Command::ComposeOverlay { width: 1024, height: 768 });
}

#[test]
fn consumed_events_reach_no_handling() {
    for event in [
        Event::CloseRequested,
        Event::Resized { width: 10, height: 10 },
        Event::KeyboardInput { key: Key::Escape },
        Event::KeyboardInput { key: Key::Other },
        Event::RedrawRequested { now: 5 },
        Event::Other,
    ] {
        let mut runtime = started(800, 600);
        assert_eq!(runtime.handle_event(event, true), vec![]);
        assert_eq!(
            runtime.phase(),
            Phase::Ready { surface: SurfaceSize { width: 800, height: 600 } }
        );
        assert_eq!(runtime.clock(), FrameClock { start: 0, last: 0 });
    }
}

#[test]
fn other_keys_and_events_do_nothing() {
    let mut runtime = started(800, 600);
    assert_eq!(runtime.handle_event(Event::KeyboardInput { key: Key::Other }, false), vec![]);
    assert_eq!(runtime.handle_event(Event::Other, false), vec![]);
    assert_eq!(runtime.phase(), Phase::Ready { surface: SurfaceSize { width: 800, height: 600 } });
}

#[test]
fn close_request_shuts_down_in_order() {
    let mut runtime = started(800, 600);
    runtime.handle_event(Event::RedrawRequested { now: 1 }, false);
    let commands = runtime.handle_event(Event::CloseRequested, false);
    assert_eq!(commands, vec![Command::AppCleanup, Command::DestroyOverlay, Command::Exit]);
    assert_eq!(runtime.phase(), Phase::ShuttingDown);
    assert!(!runtime.accepts_events());
    assert_eq!(runtime.surface_size(), None);
}

#[test]
fn events_after_shutdown_are_ignored() {
    let mut runtime = started(800, 600);
    runtime.handle_event(Event::KeyboardInput { key: Key::Escape }, false);
    for event in [
        Event::CloseRequested,
        Event::KeyboardInput { key: Key::Escape },
        Event::Resized { width: 10, height: 10 },
        Event::RedrawRequested { now: 5 },
    ] {
        assert_eq!(runtime.handle_event(event, false), vec![]);
        assert_eq!(runtime.phase(), Phase::ShuttingDown);
    }
    assert_eq!(runtime.resume(800, 600), Ok(vec![]));
}

#[test]
fn teardown_follows_shutdown() {
    let mut runtime = started(800, 600);
    let mut issued = runtime.handle_event(Event::CloseRequested, false);
    issued.extend(runtime.finish());
    assert_eq!(
        issued,
        vec![
            Command::AppCleanup,
            Command::DestroyOverlay,
            Command::Exit,
            Command::ReleaseSurface,
            Command::ReleaseContext,
            Command::ReleaseWindow,
        ]
    );
    assert_eq!(runtime.phase(), Phase::Terminated);
    assert_eq!(runtime.finish(), vec![]);
    assert_eq!(runtime.handle_event(Event::RedrawRequested { now: 9 }, false), vec![]);
    assert_eq!(runtime.resume(800, 600), Ok(vec![]));
    assert_eq!(runtime.phase(), Phase::Terminated);
}

#[test]
fn finish_without_shutdown_does_nothing() {
    let mut fresh = Runtime::new(0);
    assert_eq!(fresh.finish(), vec![]);
    assert_eq!(fresh.phase(), Phase::Uninitialized);
    let mut ready = started(800, 600);
    assert_eq!(ready.finish(), vec![]);
    assert_eq!(ready.phase(), Phase::Ready { surface: SurfaceSize { width: 800, height: 600 } });
}

#[test]
fn end_to_end_resize_then_escape() {
    let mut runtime = Runtime::new(0);
    let mut issued: Vec<Command> = Vec::new();
    issued.extend(runtime.resume(800, 600).unwrap());
    let before = issued.len();
    issued.extend(runtime.handle_event(Event::Resized { width: 0, height: 0 }, false));
    assert_eq!(issued.len(), before);
    assert_eq!(runtime.surface_size(), Some(SurfaceSize { width: 800, height: 600 }));

    let resized = runtime.handle_event(Event::Resized { width: 1024, height: 768 }, false);
    let calls: Vec<&Command> =
        resized.iter().filter(|c| matches!(c, Command::AppResize { .. })).collect();
    assert_eq!(calls, vec![&Command::AppResize { width: 1024, height: 768 }]);
    assert_eq!(runtime.surface_size(), Some(SurfaceSize { width: 1024, height: 768 }));
    issued.extend(resized);

    issued.extend(runtime.handle_event(Event::KeyboardInput { key: Key::Escape }, false));
    assert_eq!(runtime.phase(), Phase::ShuttingDown);
    issued.extend(runtime.handle_event(Event::KeyboardInput { key: Key::Escape }, false));
    issued.extend(runtime.handle_event(Event::RedrawRequested { now: 3 }, false));
    issued.extend(runtime.finish());
    assert_eq!(runtime.phase(), Phase::Terminated);

    let cleanups = issued.iter().filter(|c| **c == Command::AppCleanup).count();
    assert_eq!(cleanups, 1);
    let exits = issued.iter().filter(|c| **c == Command::Exit).count();
    assert_eq!(exits, 1);
    let place = |wanted: Command| issued.iter().position(|c| *c == wanted).unwrap();
    assert!(place(Command::AppCleanup) < place(Command::DestroyOverlay));
    assert!(place(Command::DestroyOverlay) < place(Command::Exit));
    assert!(place(Command::Exit) < place(Command::ReleaseSurface));
    assert!(place(Command::ReleaseSurface) < place(Command::ReleaseContext));
    assert!(place(Command::ReleaseContext) < place(Command::ReleaseWindow));
    assert_eq!(place(Command::ReleaseWindow), issued.len() - 1);
}

#[test]
fn clock_tick_reports_delta_and_elapsed() {
    let mut clock = FrameClock::new(100);
    assert_eq!(clock.tick(250), FrameTimes { delta: 150, elapsed: 150 });
    assert_eq!(clock.tick(400), FrameTimes { delta: 150, elapsed: 300 });
    assert_eq!(clock, FrameClock { start: 100, last: 400 });
}

#[test]
fn clock_saturates_for_an_earlier_instant() {
    let mut clock = FrameClock::new(100);
    clock.tick(500);
    assert_eq!(clock.tick(300), FrameTimes { delta: 0, elapsed: 200 });
    assert_eq!(clock.tick(50), FrameTimes { delta: 0, elapsed: 0 });
    assert_eq!(clock, FrameClock { start: 100, last: 50 });
    assert_eq!(clock.tick(u64::MAX), FrameTimes { delta: u64::MAX - 50, elapsed: u64::MAX - 100 });
}

#[test]
fn failure_classes_follow_the_taxonomy() {
    let fatal = [
        Command::CreateSurface { width: 1, height: 1 },
        Command::MakeCurrent,
        Command::CreateOverlay,
    ];
    for command in fatal {
        assert_eq!(command.failure_class(), FailureClass::StartupFatal);
    }
    let recoverable = [
        Command::AppInitialize,
        Command::AppResize { width: 1, height: 1 },
        Command::AppUpdate { delta: 1 },
        Command::AppRender { elapsed: 1 },
        Command::AppRenderOverlay,
        Command::Present,
    ];
    for command in recoverable {
        assert_eq!(command.failure_class(), FailureClass::Recoverable);
    }
    assert_eq!(Command::AppCleanup.failure_class(), FailureClass::Shutdown);
    let infallible = [
        Command::LoadGpuEntryPoints,
        Command::EnableDiagnostics,
        Command::CreateUi,
        Command::ResizeSurface { width: 1, height: 1 },
        Command::SetViewport { width: 1, height: 1 },
        Command::BeginUiPass,
        Command::EndUiPass,
        Command::HandlePlatformOutput,
        Command::Tessellate,
        Command::ComposeOverlay { width: 1, height: 1 },
        Command::RequestRedraw,
        Command::DestroyOverlay,
        Command::Exit,
        Command::ReleaseSurface,
        Command::ReleaseContext,
        Command::ReleaseWindow,
    ];
    for command in infallible {
        assert_eq!(command.failure_class(), FailureClass::Infallible);
    }
    assert!(!FailureClass::StartupFatal.continues());
    assert!(FailureClass::Recoverable.continues());
    assert!(FailureClass::Shutdown.continues());
    assert!(FailureClass::Infallible.continues());
}

#[test]
fn shutdown_and_teardown_commands_are_told_apart() {
    assert!(Command::AppCleanup.is_shutdown());
    assert!(Command::DestroyOverlay.is_shutdown());
    assert!(Command::Exit.is_shutdown());
    assert!(Command::ReleaseSurface.is_shutdown());
    assert!(!Command::Present.is_shutdown());
    assert!(!Command::AppCleanup.is_teardown());
    assert!(Command::ReleaseSurface.is_teardown());
    assert!(Command::ReleaseContext.is_teardown());
    assert!(Command::ReleaseWindow.is_teardown());
    assert_eq!(Command::RequestRedraw.stage(), None);
    assert_eq!(Command::Present.stage(), Some(FrameStage::Present));
}

#[test]
fn reported_failures_have_their_headings() {
    assert_eq!(Command::AppInitialize.failure_label(), Some("Initialization error"));
    assert_eq!(Command::AppResize { width: 1, height: 2 }.failure_label(), Some("Resize error"));
    assert_eq!(Command::AppUpdate { delta: 0 }.failure_label(), Some("Update error"));
    assert_eq!(Command::AppRender { elapsed: 0 }.failure_label(), Some("Render error"));
    assert_eq!(Command::AppRenderOverlay.failure_label(), Some("UI render error"));
    assert_eq!(Command::Present.failure_label(), Some("Swap buffers error"));
    assert_eq!(Command::AppCleanup.failure_label(), Some("Cleanup error"));
    assert_eq!(Command::MakeCurrent.failure_label(), None);
    assert_eq!(Command::CreateSurface { width: 1, height: 1 }.failure_label(), None);
    assert_eq!(Command::RequestRedraw.failure_label(), None);
}

#[test]
fn every_issued_size_has_pixels() {
    let mut runtime = Runtime::new(0);
    let mut issued: Vec<Command> = Vec::new();
    issued.extend(runtime.resume(640, 480).unwrap());
    issued.extend(runtime.handle_event(Event::Resized { width: 0, height: 480 }, false));
    issued.extend(runtime.handle_event(Event::RedrawRequested { now: 10 }, false));
    issued.extend(runtime.handle_event(Event::Resized { width: 320, height: 0 }, false));
    issued.extend(runtime.handle_event(Event::Resized { width: 320, height: 240 }, false));
    issued.extend(runtime.handle_event(Event::RedrawRequested { now: 20 }, false));
    let sizes: Vec<(u32, u32)> = issued
        .iter()
        .filter_map(|command| match *command {
            Command::CreateSurface { width, height }
            | Command::ResizeSurface { width, height }
            | Command::SetViewport { width, height }
            | Command::AppResize { width, height }
            | Command::ComposeOverlay { width, height } => Some((width, height)),
            _ => None,
        })
        .collect();
    assert_eq!(
        sizes,
        vec![(640, 480), (640, 480), (640, 480), (320, 240), (320, 240), (320, 240), (320, 240)]
    );
}

#[test]
fn many_frames_keep_the_stage_order() {
    let mut runtime = Runtime::new(0);
    let mut issued: Vec<Command> = Vec::new();
    issued.extend(runtime.resume(640, 480).unwrap());
    for frame in 1..=4u64 {
        issued.extend(runtime.handle_event(Event::RedrawRequested { now: frame * 16 }, false));
        issued.extend(runtime.handle_event(Event::Resized { width: 100, height: 100 }, false));
        issued.extend(runtime.handle_event(Event::RedrawRequested { now: 0 }, true));
    }
    issued.extend(runtime.handle_event(Event::CloseRequested, false));
    issued.extend(runtime.finish());
    let stages: Vec<FrameStage> = issued.iter().filter_map(|c| c.stage()).collect();
    let pattern = [
        FrameStage::Update,
        FrameStage::Render,
        FrameStage::UiPopulate,
        FrameStage::OverlayPaint,
        FrameStage::Present,
    ];
    assert_eq!(stages.len(), 20);
    for (place, stage) in stages.iter().enumerate() {
        assert_eq!(*stage, pattern[place % 5]);
    }
}
