//! The application contract and the driver that connects it to the frame
//! state machine: each platform event becomes at most one update/draw pair,
//! one input offer, or one resize application, decided by the machine and
//! performed here.

use crate::error::SurfaceError;
use crate::renderer::Renderer;
use crate::runtime::Cmd;
use crate::runtime::Event;
use crate::runtime::Flow;
use crate::runtime::Runtime;
use crate::runtime::WindowEvent;
use vstd::prelude::*;

verus! {

/// The capability set every application implements: built once after the
/// renderer, then driven exclusively by the runtime through input, update,
/// resize and draw calls. The contract encodes the frame discipline: only
/// `Draw` presents frames, nothing but an explicit resize changes the
/// surface dimensions, and a successful draw presents exactly one frame at
/// the surface's current dimensions.
pub trait State: Sized {
    /// Builds the application state, registering whatever resources it
    /// needs with the renderer.
    fn Init(renderer: &mut Renderer) -> (r: Result<Self, String>)
        requires
            old(renderer).wf(),
        ensures
            final(renderer).wf(),
    ;

    /// Offers a window event. Returns true when the application consumed
    /// the event and the runtime's default handling must not run.
    fn Input(&mut self, renderer: &mut Renderer, event: &WindowEvent) -> (r: bool)
        requires
            old(renderer).wf(),
        ensures
            final(renderer).wf(),
            final(renderer).frames_spec() == old(renderer).frames_spec(),
            final(renderer).width_spec() == old(renderer).width_spec(),
            final(renderer).height_spec() == old(renderer).height_spec(),
    ;

    /// Advances the application by `delta` clock ticks.
    fn Update(&mut self, renderer: &mut Renderer, delta: u64)
        requires
            old(renderer).wf(),
        ensures
            final(renderer).wf(),
            final(renderer).frames_spec() == old(renderer).frames_spec(),
            final(renderer).width_spec() == old(renderer).width_spec(),
            final(renderer).height_spec() == old(renderer).height_spec(),
    ;

    /// Notifies the application that the surface changed size.
    fn Resize(&mut self, renderer: &mut Renderer)
        requires
            old(renderer).wf(),
        ensures
            final(renderer).wf(),
            final(renderer).frames_spec() == old(renderer).frames_spec(),
            final(renderer).width_spec() == old(renderer).width_spec(),
            final(renderer).height_spec() == old(renderer).height_spec(),
    ;

    /// Draws one frame. On success exactly one frame is presented, at the
    /// surface's current dimensions; on failure nothing is presented and
    /// the classified surface error is reported for the runtime to recover
    /// from.
    fn Draw(&mut self, renderer: &mut Renderer) -> (r: Result<(), SurfaceError>)
        requires
            old(renderer).wf(),
        ensures
            final(renderer).wf(),
            final(renderer).width_spec() == old(renderer).width_spec(),
            final(renderer).height_spec() == old(renderer).height_spec(),
            r matches Ok(_) ==> {
                &&& final(renderer).frames_spec().len() == old(renderer).frames_spec().len() + 1
                &&& final(renderer).frames_spec().drop_last() == old(renderer).frames_spec()
                &&& final(renderer).frames_spec().last().width == final(renderer).width_spec()
                &&& final(renderer).frames_spec().last().height == final(renderer).height_spec()
            },
            r matches Err(_) ==> final(renderer).frames_spec() == old(renderer).frames_spec(),
    ;
}

impl Runtime {
    /// Everything one redraw callback does, given how the draw went: the
    /// machine advances by the redraw transition; on success exactly one
    /// frame was presented at the unchanged surface dimensions; on a lost
    /// surface nothing was presented and the surface was reconfigured at
    /// the window's current size (unless the window reports zero area, in
    /// which case recovery waits); on any other error nothing changed; and
    /// the loop exits exactly on out-of-memory.
    pub open spec fn redraw_effect(
        pre_rt: Runtime,
        post_rt: Runtime,
        pre_r: Renderer,
        post_r: Renderer,
        flow: Flow,
        event: Event,
        now: u64,
        window_width: u32,
        window_height: u32,
        outcome: Result<(), SurfaceError>,
    ) -> bool {
        &&& post_rt == pre_rt.step_event_state(event, now)
        &&& flow == if Runtime::draw_exit_spec(outcome) {
            Flow::Exit
        } else {
            pre_rt.flow_spec()
        }
        &&& match outcome {
            Ok(_) => {
                &&& post_r.frames_spec().len() == pre_r.frames_spec().len() + 1
                &&& post_r.frames_spec().drop_last() == pre_r.frames_spec()
                &&& post_r.frames_spec().last().width == post_r.width_spec()
                &&& post_r.frames_spec().last().height == post_r.height_spec()
                &&& post_r.width_spec() == pre_r.width_spec()
                &&& post_r.height_spec() == pre_r.height_spec()
            },
            Err(SurfaceError::Lost) => {
                &&& post_r.frames_spec() == pre_r.frames_spec()
                &&& if window_width > 0 && window_height > 0 {
                    post_r.width_spec() == window_width && post_r.height_spec() == window_height
                } else {
                    post_r.width_spec() == pre_r.width_spec() && post_r.height_spec()
                        == pre_r.height_spec()
                }
            },
            Err(_) => {
                &&& post_r.frames_spec() == pre_r.frames_spec()
                &&& post_r.width_spec() == pre_r.width_spec()
                &&& post_r.height_spec() == pre_r.height_spec()
            },
        }
    }

    /// Everything one owned window event does, given whether the
    /// application consumed it: the machine applies the default input
    /// transition, no frame is presented, an unconsumed size or scale
    /// change with a real area reconfigures the surface at the reported
    /// size (a zero-area size, as a minimized window reports, is skipped),
    /// and the loop exits exactly on an unconsumed close request or Escape
    /// press.
    pub open spec fn input_effect(
        pre_rt: Runtime,
        post_rt: Runtime,
        pre_r: Renderer,
        post_r: Renderer,
        flow: Flow,
        we: WindowEvent,
        consumed: bool,
    ) -> bool {
        &&& post_rt == pre_rt.step_input_state(we, consumed)
        &&& flow == if Runtime::input_exit_spec(we, consumed) {
            Flow::Exit
        } else {
            pre_rt.flow_spec()
        }
        &&& post_r.frames_spec() == pre_r.frames_spec()
        &&& match we {
            WindowEvent::Resized { width, height } => if !consumed && width > 0 && height > 0 {
                post_r.width_spec() == width && post_r.height_spec() == height
            } else {
                post_r.width_spec() == pre_r.width_spec() && post_r.height_spec()
                    == pre_r.height_spec()
            },
            WindowEvent::ScaleFactorChanged { width, height } => if !consumed && width > 0
                && height > 0 {
                post_r.width_spec() == width && post_r.height_spec() == height
            } else {
                post_r.width_spec() == pre_r.width_spec() && post_r.height_spec()
                    == pre_r.height_spec()
            },
            _ => post_r.width_spec() == pre_r.width_spec() && post_r.height_spec()
                == pre_r.height_spec(),
        }
    }

    /// Processes one platform event end to end: asks the machine what to
    /// do, performs the resulting calls on the application and the
    /// renderer, reports draw outcomes and input answers back to the
    /// machine, and returns three things the loop must act on: the flow to
    /// take, whether to schedule a redraw with the platform (the one
    /// command only the platform can perform), and a transient surface
    /// error to log, if the draw reported one — such errors are neither
    /// recovered from nor fatal, so the frame is skipped, the diagnostic
    /// handed out, and the next frame retried.
    pub fn RunEvent<T: State>(
        &mut self,
        app: &mut T,
        renderer: &mut Renderer,
        event: &Event,
        now: u64,
        window_width: u32,
        window_height: u32,
    ) -> (r: (Flow, bool, Option<SurfaceError>))
        requires
            old(renderer).wf(),
        ensures
            final(renderer).wf(),
            r.1 == (*event matches Event::MainEventsCleared && old(self).foreground() && !old(
                self,
            ).redraw_requested),
            !(*event matches Event::RedrawRequested { owned: true }) ==> r.2 is None,
            *event matches Event::RedrawRequested { owned: true } ==> exists|
                outcome: Result<(), SurfaceError>,
            |
                Runtime::redraw_effect(
                    *old(self),
                    *final(self),
                    *old(renderer),
                    *final(renderer),
                    r.0,
                    *event,
                    now,
                    window_width,
                    window_height,
                    outcome,
                ) && r.2 == Runtime::report_spec(outcome),
            *event matches Event::Window { owned: true, event: we } ==> exists|consumed: bool|
                Runtime::input_effect(
                    *old(self),
                    *final(self),
                    *old(renderer),
                    *final(renderer),
                    r.0,
                    we,
                    consumed,
                ),
            !(*event matches Event::RedrawRequested { owned: true }) && !(*event
                matches Event::Window { owned: true, .. }) ==> {
                &&& *final(self) == old(self).step_event_state(*event, now)
                &&& r.0 == old(self).flow_spec()
                &&& final(renderer).same_resources(*old(renderer))
                &&& final(renderer).frames_spec() == old(renderer).frames_spec()
                &&& final(renderer).width_spec() == old(renderer).width_spec()
                &&& final(renderer).height_spec() == old(renderer).height_spec()
            },
    {
        let (flow1, cmds) = self.HandleEvent(event, now);
        match event {
            Event::RedrawRequested { owned } => {
                if *owned {
                    let delta = if let Cmd::Update { delta } = cmds[0] {
                        delta
                    } else {
                        unreached()
                    };
                    app.Update(renderer, delta);
                    let outcome = app.Draw(renderer);
                    let (flow2, recovery) = self.HandleDrawOutcome(
                        &outcome,
                        window_width,
                        window_height,
                    );
                    if recovery.len() == 2 {
                        if let Cmd::ConfigureSurface { width, height } = recovery[0] {
                            renderer.Resize(width, height);
                        } else {
                            unreached()
                        }
                        if let Cmd::ResizeState = recovery[1] {
                            app.Resize(renderer);
                        } else {
                            unreached()
                        }
                    }
                    let report = match outcome {
                        Err(SurfaceError::Outdated) => Some(SurfaceError::Outdated),
                        Err(SurfaceError::Timeout) => Some(SurfaceError::Timeout),
                        _ => None,
                    };
                    proof {
                        assert(Runtime::redraw_effect(
                            *old(self),
                            *self,
                            *old(renderer),
                            *renderer,
                            flow2,
                            *event,
                            now,
                            window_width,
                            window_height,
                            outcome,
                        ) && report == Runtime::report_spec(outcome));
                    }
                    (flow2, false, report)
                } else {
                    (flow1, false, None)
                }
            },
            Event::Window { owned, event: we } => {
                if *owned {
                    let consumed = app.Input(renderer, we);
                    let (flow2, defaults) = self.HandleInput(we, consumed);
                    if defaults.len() == 2 {
                        if let Cmd::ConfigureSurface { width, height } = defaults[0] {
                            renderer.Resize(width, height);
                        } else {
                            unreached()
                        }
                        if let Cmd::ResizeState = defaults[1] {
                            app.Resize(renderer);
                        } else {
                            unreached()
                        }
                    }
                    proof {
                        assert(Runtime::input_effect(
                            *old(self),
                            *self,
                            *old(renderer),
                            *renderer,
                            flow2,
                            *we,
                            consumed,
                        ));
                    }
                    (flow2, false, None)
                } else {
                    (flow1, false, None)
                }
            },
            _ => (flow1, cmds.len() == 1, None),
        }
    }
}

} // verus!
