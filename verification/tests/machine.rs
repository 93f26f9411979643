use graphics::Cmd;
use graphics::Event;
use graphics::Flow;
use graphics::Runtime;
use graphics::SurfaceError;
use graphics::WindowEvent;
use graphics::Step;

fn step(event: Event, now: u64) -> Step {
    Step {
        event,
        now,
        consumed: false,
        outcome: Ok(()),
        width: 1280,
        height: 720,
    }
}

#[test]
fn initial_state() {
    let runtime = Runtime::New(42);
    assert!(runtime.resumed);
    assert!(runtime.focused);
    assert!(runtime.redraw_requested);
    assert_eq!(runtime.last_update, 42);
}

#[test]
fn redraw_yields_one_update_draw_pair() {
    let mut runtime = Runtime::New(100);
    let (flow, cmds) = runtime.HandleEvent(&Event::RedrawRequested { owned: true }, 150);
    assert_eq!(flow, Flow::Poll);
    assert_eq!(cmds, vec![Cmd::Update { delta: 50 }, Cmd::Draw]);
    assert!(!runtime.redraw_requested);
    assert_eq!(runtime.last_update, 150);
}

#[test]
fn consecutive_redraws_measure_elapsed_time() {
    let mut runtime = Runtime::New(100);
    let (_, first) = runtime.HandleEvent(&Event::RedrawRequested { owned: true }, 150);
    assert_eq!(first[0], Cmd::Update { delta: 50 });
    let (_, second) = runtime.HandleEvent(&Event::RedrawRequested { owned: true }, 160);
    assert_eq!(second[0], Cmd::Update { delta: 10 });
}

#[test]
fn backwards_clock_gives_zero_delta() {
    let mut runtime = Runtime::New(100);
    let (_, cmds) = runtime.HandleEvent(&Event::RedrawRequested { owned: true }, 90);
    assert_eq!(cmds[0], Cmd::Update { delta: 0 });
}

#[test]
fn foreign_redraw_is_ignored() {
    let mut runtime = Runtime::New(100);
    let (_, cmds) = runtime.HandleEvent(&Event::RedrawRequested { owned: false }, 500);
    assert!(cmds.is_empty());
    assert!(runtime.redraw_requested);
    assert_eq!(runtime.last_update, 100);
}

#[test]
fn idle_tick_requests_redraw_when_none_pending() {
    let mut runtime = Runtime::New(0);
    runtime.HandleEvent(&Event::RedrawRequested { owned: true }, 10);
    let (_, cmds) = runtime.HandleEvent(&Event::MainEventsCleared, 11);
    assert_eq!(cmds, vec![Cmd::RequestRedraw]);
    assert!(runtime.redraw_requested);
    let (_, again) = runtime.HandleEvent(&Event::MainEventsCleared, 12);
    assert!(again.is_empty());
    assert_eq!(runtime.last_update, 12);
}

#[test]
fn background_idle_freezes_clock_and_requests_nothing() {
    let mut runtime = Runtime::New(0);
    runtime.HandleEvent(&Event::RedrawRequested { owned: true }, 10);
    runtime.HandleInput(&WindowEvent::Focused(false), false);
    assert!(!runtime.focused);
    let (flow, cmds) = runtime.HandleEvent(&Event::MainEventsCleared, 900);
    assert_eq!(flow, Flow::Wait);
    assert!(cmds.is_empty());
    assert!(!runtime.redraw_requested);
    assert_eq!(runtime.last_update, 900);
}

#[test]
fn suspension_freezes_clock_too() {
    let mut runtime = Runtime::New(0);
    runtime.HandleEvent(&Event::RedrawRequested { owned: true }, 10);
    runtime.HandleEvent(&Event::Suspended, 20);
    assert!(!runtime.resumed);
    let (_, cmds) = runtime.HandleEvent(&Event::MainEventsCleared, 500);
    assert!(cmds.is_empty());
    assert_eq!(runtime.last_update, 500);
    runtime.HandleEvent(&Event::Resumed, 600);
    assert!(runtime.resumed);
}

#[test]
fn first_delta_after_refocus_excludes_unfocused_interval() {
    let mut runtime = Runtime::New(0);
    runtime.HandleEvent(&Event::RedrawRequested { owned: true }, 100);
    runtime.HandleInput(&WindowEvent::Focused(false), false);
    // Idle wake-ups while unfocused keep resetting the clock.
    runtime.HandleEvent(&Event::MainEventsCleared, 400);
    runtime.HandleEvent(&Event::MainEventsCleared, 1000);
    runtime.HandleInput(&WindowEvent::Focused(true), false);
    let (_, idle) = runtime.HandleEvent(&Event::MainEventsCleared, 1005);
    assert_eq!(idle, vec![Cmd::RequestRedraw]);
    let (_, cmds) = runtime.HandleEvent(&Event::RedrawRequested { owned: true }, 1010);
    assert_eq!(cmds[0], Cmd::Update { delta: 10 });
}

#[test]
fn lost_surface_reconfigures_and_notifies_once() {
    let mut runtime = Runtime::New(0);
    let mut script_step = step(Event::RedrawRequested { owned: true }, 16);
    script_step.outcome = Err(SurfaceError::Lost);
    script_step.width = 800;
    script_step.height = 600;
    let trace = runtime.RunScript(&vec![script_step]);
    assert_eq!(
        trace,
        vec![
            Cmd::Update { delta: 16 },
            Cmd::Draw,
            Cmd::ConfigureSurface { width: 800, height: 600 },
            Cmd::ResizeState,
        ]
    );
}

#[test]
fn out_of_memory_stops_the_run() {
    let mut runtime = Runtime::New(0);
    let mut fatal = step(Event::RedrawRequested { owned: true }, 16);
    fatal.outcome = Err(SurfaceError::OutOfMemory);
    let script = vec![
        fatal,
        step(Event::MainEventsCleared, 17),
        step(Event::RedrawRequested { owned: true }, 32),
        step(
            Event::Window { owned: true, event: WindowEvent::CloseRequested },
            33,
        ),
    ];
    let trace = runtime.RunScript(&script);
    assert_eq!(trace, vec![Cmd::Update { delta: 16 }, Cmd::Draw]);
}

#[test]
fn out_of_memory_exits_with_no_recovery_commands() {
    let runtime = Runtime::New(0);
    let (flow, cmds) = runtime.HandleDrawOutcome(&Err(SurfaceError::OutOfMemory), 1280, 720);
    assert_eq!(flow, Flow::Exit);
    assert!(cmds.is_empty());
}

#[test]
fn transient_errors_are_skipped() {
    let runtime = Runtime::New(0);
    let (flow, cmds) = runtime.HandleDrawOutcome(&Err(SurfaceError::Outdated), 1280, 720);
    assert_eq!(flow, Flow::Poll);
    assert!(cmds.is_empty());
    let (flow, cmds) = runtime.HandleDrawOutcome(&Err(SurfaceError::Timeout), 1280, 720);
    assert_eq!(flow, Flow::Poll);
    assert!(cmds.is_empty());
    let (flow, cmds) = runtime.HandleDrawOutcome(&Ok(()), 1280, 720);
    assert_eq!(flow, Flow::Poll);
    assert!(cmds.is_empty());
}

#[test]
fn close_request_exits_unless_consumed() {
    let mut runtime = Runtime::New(0);
    let (flow, _) = runtime.HandleInput(&WindowEvent::CloseRequested, false);
    assert_eq!(flow, Flow::Exit);
    let (flow, _) = runtime.HandleInput(&WindowEvent::CloseRequested, true);
    assert_eq!(flow, Flow::Poll);
}

#[test]
fn escape_press_exits_other_keys_do_not() {
    let mut runtime = Runtime::New(0);
    let (flow, _) = runtime.HandleInput(
        &WindowEvent::KeyboardInput { pressed: true, escape: true },
        false,
    );
    assert_eq!(flow, Flow::Exit);
    let (flow, _) = runtime.HandleInput(
        &WindowEvent::KeyboardInput { pressed: false, escape: true },
        false,
    );
    assert_eq!(flow, Flow::Poll);
    let (flow, _) = runtime.HandleInput(
        &WindowEvent::KeyboardInput { pressed: true, escape: false },
        false,
    );
    assert_eq!(flow, Flow::Poll);
    let (flow, _) = runtime.HandleInput(
        &WindowEvent::KeyboardInput { pressed: true, escape: true },
        true,
    );
    assert_eq!(flow, Flow::Poll);
}

#[test]
fn resize_event_reconfigures_then_notifies() {
    let mut runtime = Runtime::New(0);
    let (flow, cmds) = runtime.HandleInput(
        &WindowEvent::Resized { width: 800, height: 600 },
        false,
    );
    assert_eq!(flow, Flow::Poll);
    assert_eq!(
        cmds,
        vec![
            Cmd::ConfigureSurface { width: 800, height: 600 },
            Cmd::ResizeState,
        ]
    );
}

#[test]
fn scale_factor_change_reconfigures_then_notifies() {
    let mut runtime = Runtime::New(0);
    let (_, cmds) = runtime.HandleInput(
        &WindowEvent::ScaleFactorChanged { width: 2560, height: 1440 },
        false,
    );
    assert_eq!(
        cmds,
        vec![
            Cmd::ConfigureSurface { width: 2560, height: 1440 },
            Cmd::ResizeState,
        ]
    );
}

#[test]
fn consumed_resize_applies_no_default_handling() {
    let mut runtime = Runtime::New(0);
    let (_, cmds) = runtime.HandleInput(
        &WindowEvent::Resized { width: 800, height: 600 },
        true,
    );
    assert!(cmds.is_empty());
}

#[test]
fn focus_change_updates_state_only() {
    let mut runtime = Runtime::New(0);
    let (_, cmds) = runtime.HandleInput(&WindowEvent::Focused(false), false);
    assert!(cmds.is_empty());
    assert!(!runtime.focused);
    let (_, cmds) = runtime.HandleInput(&WindowEvent::Focused(true), false);
    assert!(cmds.is_empty());
    assert!(runtime.focused);
}

#[test]
fn resize_applied_before_next_draw() {
    // The renderer starts at 1280x720; the window is resized to 800x600;
    // the resize is fully applied, with one resize notification, before
    // the next draw runs.
    let mut runtime = Runtime::New(0);
    let resize = Step {
        event: Event::Window {
            owned: true,
            event: WindowEvent::Resized { width: 800, height: 600 },
        },
        now: 5,
        consumed: false,
        outcome: Ok(()),
        width: 800,
        height: 600,
    };
    let redraw = step(Event::RedrawRequested { owned: true }, 16);
    let trace = runtime.RunScript(&vec![resize, redraw]);
    assert_eq!(
        trace,
        vec![
            Cmd::OfferInput,
            Cmd::ConfigureSurface { width: 800, height: 600 },
            Cmd::ResizeState,
            Cmd::Update { delta: 16 },
            Cmd::Draw,
        ]
    );
    let resizes = trace
        .iter()
        .filter(|cmd| **cmd == Cmd::ResizeState)
        .count();
    assert_eq!(resizes, 1);
}

#[test]
fn unowned_window_events_do_nothing() {
    let mut runtime = Runtime::New(0);
    let script = vec![step(
        Event::Window { owned: false, event: WindowEvent::CloseRequested },
        3,
    )];
    let trace = runtime.RunScript(&script);
    assert!(trace.is_empty());
    assert!(runtime.resumed);
    assert!(runtime.focused);
}

#[test]
fn escape_in_script_stops_later_steps() {
    let mut runtime = Runtime::New(0);
    let escape = Step {
        event: Event::Window {
            owned: true,
            event: WindowEvent::KeyboardInput { pressed: true, escape: true },
        },
        now: 4,
        consumed: false,
        outcome: Ok(()),
        width: 1280,
        height: 720,
    };
    let script = vec![escape, step(Event::RedrawRequested { owned: true }, 16)];
    let trace = runtime.RunScript(&script);
    assert_eq!(trace, vec![Cmd::OfferInput]);
}

#[test]
fn foreground_tick_schedules_and_services_one_frame() {
    let mut runtime = Runtime::New(0);
    // Service the initially pending redraw, then let one idle tick request
    // the next frame and service it.
    let script = vec![
        step(Event::RedrawRequested { owned: true }, 8),
        step(Event::MainEventsCleared, 9),
        step(Event::RedrawRequested { owned: true }, 16),
    ];
    let trace = runtime.RunScript(&script);
    assert_eq!(
        trace,
        vec![
            Cmd::Update { delta: 8 },
            Cmd::Draw,
            Cmd::RequestRedraw,
            Cmd::Update { delta: 8 },
            Cmd::Draw,
        ]
    );
}

#[test]
fn zero_area_resize_is_skipped() {
    // A minimized window reports a zero-area size; the surface cannot be
    // configured at it, so no default handling runs.
    let mut runtime = Runtime::New(0);
    let (flow, cmds) = runtime.HandleInput(&WindowEvent::Resized { width: 0, height: 0 }, false);
    assert_eq!(flow, Flow::Poll);
    assert!(cmds.is_empty());
    let (_, cmds) = runtime.HandleInput(
        &WindowEvent::ScaleFactorChanged { width: 800, height: 0 },
        false,
    );
    assert!(cmds.is_empty());
}

#[test]
fn lost_surface_with_zero_area_window_waits() {
    let runtime = Runtime::New(0);
    let (flow, cmds) = runtime.HandleDrawOutcome(&Err(SurfaceError::Lost), 0, 0);
    assert_eq!(flow, Flow::Poll);
    assert!(cmds.is_empty());
}

#[test]
fn resize_survives_quiet_events_until_the_draw() {
    // Between the resize and the next redraw callback, events that neither
    // draw nor resize nor exit leave the new dimensions standing: the one
    // surface reconfiguration in the trace is the resize's own.
    let mut runtime = Runtime::New(0);
    let resize = Step {
        event: Event::Window {
            owned: true,
            event: WindowEvent::Resized { width: 800, height: 600 },
        },
        now: 5,
        consumed: false,
        outcome: Ok(()),
        width: 800,
        height: 600,
    };
    let keystroke = Step {
        event: Event::Window {
            owned: true,
            event: WindowEvent::KeyboardInput { pressed: false, escape: false },
        },
        now: 7,
        consumed: false,
        outcome: Ok(()),
        width: 800,
        height: 600,
    };
    let script = vec![
        resize,
        keystroke,
        step(Event::MainEventsCleared, 10),
        step(Event::RedrawRequested { owned: false }, 12),
        step(Event::RedrawRequested { owned: true }, 26),
    ];
    let trace = runtime.RunScript(&script);
    assert_eq!(
        trace,
        vec![
            Cmd::OfferInput,
            Cmd::ConfigureSurface { width: 800, height: 600 },
            Cmd::ResizeState,
            Cmd::OfferInput,
            Cmd::Update { delta: 16 },
            Cmd::Draw,
        ]
    );
}
