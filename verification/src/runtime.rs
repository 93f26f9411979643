//! The frame/event state machine. It converts platform events and clock
//! readings into commands on the application state and the renderer, and it
//! classifies surface failures: a lost surface is reconfigured and the
//! application notified, an out-of-memory report terminates the loop, other
//! errors are skipped and retried on the next frame.
//!
//! The machine itself performs no call: each transition returns the commands
//! the driver must perform, in order, so the scheduling policy can be tested
//! by feeding a synthetic event sequence and checking the resulting trace.

use crate::error::SurfaceError;
use vstd::prelude::*;

verus! {

/// A window event, as delivered by the platform for the runtime's window.
#[derive(Copy, Clone, Debug, PartialEq, Eq, Structural)]
pub enum WindowEvent {
    /// The user asked to close the window.
    CloseRequested,
    /// A key changed state; `escape` says whether the key is Escape.
    KeyboardInput { pressed: bool, escape: bool },
    /// The window gained or lost input focus.
    Focused(bool),
    /// The scale factor changed, giving the window a new physical size.
    ScaleFactorChanged { width: u32, height: u32 },
    /// The window was resized.
    Resized { width: u32, height: u32 },
    /// Any other window event; offered to the application and otherwise
    /// ignored.
    Other,
}

/// A platform event, as delivered by the event loop.
#[derive(Copy, Clone, Debug, PartialEq, Eq, Structural)]
pub enum Event {
    /// The session became active again.
    Resumed,
    /// The session was suspended.
    Suspended,
    /// A redraw callback; `owned` says it addresses the runtime's window.
    RedrawRequested { owned: bool },
    /// All pending events of this tick have been processed.
    MainEventsCleared,
    /// A window event; `owned` says it addresses the runtime's window.
    Window { owned: bool, event: WindowEvent },
    /// Any other platform event; ignored.
    Other,
}

/// What the event loop should do after a transition.
#[derive(Copy, Clone, Debug, PartialEq, Eq, Structural)]
pub enum Flow {
    /// Poll continuously: run another tick at once.
    Poll,
    /// Block until the next platform event arrives.
    Wait,
    /// Terminate the event loop.
    Exit,
}

/// A command the driver must perform, in the order returned.
#[derive(Copy, Clone, Debug, PartialEq, Eq, Structural)]
pub enum Cmd {
    /// Advance the application state by `delta` clock ticks.
    Update { delta: u64 },
    /// Ask the application to draw one frame.
    Draw,
    /// Reconfigure the presentation surface at the given size.
    ConfigureSurface { width: u32, height: u32 },
    /// Tell the application that the surface changed size.
    ResizeState,
    /// Offer the window event to the application's input hook.
    OfferInput,
    /// Schedule one redraw with the platform.
    RequestRedraw,
}

/// The frame/event state machine: the three scheduling booleans and the
/// clock reading of the last update.
#[derive(Copy, Clone, Debug, PartialEq, Eq, Structural)]
pub struct Runtime {
    /// The window is part of an active session (false while suspended).
    pub resumed: bool,
    /// The window has input focus.
    pub focused: bool,
    /// A redraw has been scheduled and not yet serviced.
    pub redraw_requested: bool,
    /// Clock reading (in ticks) at the last update, or at the last idle
    /// wake-up while the window was not in the foreground.
    pub last_update: u64,
}

impl Runtime {
    /// The initial state: resumed, focused, one redraw already scheduled.
    pub open spec fn initial_spec(now: u64) -> Runtime {
        Runtime { resumed: true, focused: true, redraw_requested: true, last_update: now }
    }

    /// The machine polls only while the window is both resumed and focused.
    pub open spec fn foreground(self) -> bool {
        self.resumed && self.focused
    }

    /// Poll in the foreground, block otherwise.
    pub open spec fn flow_spec(self) -> Flow {
        if self.foreground() {
            Flow::Poll
        } else {
            Flow::Wait
        }
    }

    /// Time elapsed since the last update; zero if the clock ran backwards.
    pub open spec fn delta_spec(self, now: u64) -> u64 {
        if now >= self.last_update {
            (now - self.last_update) as u64
        } else {
            0u64
        }
    }

    /// State after one platform event.
    pub open spec fn step_event_state(self, event: Event, now: u64) -> Runtime {
        match event {
            Event::Resumed => Runtime { resumed: true, ..self },
            Event::Suspended => Runtime { resumed: false, ..self },
            Event::RedrawRequested { owned } => if owned {
                Runtime { redraw_requested: false, last_update: now, ..self }
            } else {
                self
            },
            Event::MainEventsCleared => if self.foreground() && !self.redraw_requested {
                Runtime { redraw_requested: true, ..self }
            } else {
                Runtime { last_update: now, ..self }
            },
            Event::Window { .. } => self,
            Event::Other => self,
        }
    }

    /// Commands issued for one platform event: a redraw callback for the
    /// owned window yields one update/draw pair; an idle tick in the
    /// foreground schedules a redraw if none is pending, and otherwise
    /// freezes the clock; an owned window event is offered to the
    /// application.
    pub open spec fn step_event_cmds(self, event: Event, now: u64) -> Seq<Cmd> {
        match event {
            Event::RedrawRequested { owned } => if owned {
                seq![Cmd::Update { delta: self.delta_spec(now) }, Cmd::Draw]
            } else {
                Seq::empty()
            },
            Event::MainEventsCleared => if self.foreground() && !self.redraw_requested {
                seq![Cmd::RequestRedraw]
            } else {
                Seq::empty()
            },
            Event::Window { owned, .. } => if owned {
                seq![Cmd::OfferInput]
            } else {
                Seq::empty()
            },
            _ => Seq::empty(),
        }
    }

    /// Commands issued once a draw settled: a lost surface is reconfigured
    /// at the window's current size and the application notified;
    /// everything else needs no action. A window reporting zero area is
    /// not presentable (the GPU API rejects a zero-area surface), so
    /// recovery then waits for a real size to arrive.
    pub open spec fn draw_cmds_spec(
        outcome: Result<(), SurfaceError>,
        width: u32,
        height: u32,
    ) -> Seq<Cmd> {
        match outcome {
            Err(SurfaceError::Lost) => if width > 0 && height > 0 {
                seq![Cmd::ConfigureSurface { width, height }, Cmd::ResizeState]
            } else {
                Seq::empty()
            },
            _ => Seq::empty(),
        }
    }

    /// The draw outcomes worth a diagnostic: transient errors, which are
    /// neither recovered from nor fatal, are reported to the driver for
    /// logging and the frame is retried next time.
    pub open spec fn report_spec(outcome: Result<(), SurfaceError>) -> Option<SurfaceError> {
        match outcome {
            Err(SurfaceError::Outdated) => Some(SurfaceError::Outdated),
            Err(SurfaceError::Timeout) => Some(SurfaceError::Timeout),
            _ => None,
        }
    }

    /// A draw that reports out-of-memory terminates the loop.
    pub open spec fn draw_exit_spec(outcome: Result<(), SurfaceError>) -> bool {
        outcome == Err::<(), SurfaceError>(SurfaceError::OutOfMemory)
    }

    /// State after the application's input hook settled: an unconsumed
    /// focus change updates the focus flag; everything else leaves the
    /// machine as it is.
    pub open spec fn step_input_state(self, event: WindowEvent, consumed: bool) -> Runtime {
        if consumed {
            self
        } else {
            match event {
                WindowEvent::Focused(focused) => Runtime { focused, ..self },
                _ => self,
            }
        }
    }

    /// Commands issued for an unconsumed window event: a size or scale
    /// change reconfigures the surface and notifies the application. A
    /// zero-area size, as a minimized window reports, is skipped: the GPU
    /// API rejects a zero-area surface, and nothing is drawn while the
    /// window has no area.
    pub open spec fn input_cmds_spec(event: WindowEvent, consumed: bool) -> Seq<Cmd> {
        if consumed {
            Seq::empty()
        } else {
            match event {
                WindowEvent::ScaleFactorChanged { width, height } => if width > 0 && height > 0 {
                    seq![Cmd::ConfigureSurface { width, height }, Cmd::ResizeState]
                } else {
                    Seq::empty()
                },
                WindowEvent::Resized { width, height } => if width > 0 && height > 0 {
                    seq![Cmd::ConfigureSurface { width, height }, Cmd::ResizeState]
                } else {
                    Seq::empty()
                },
                _ => Seq::empty(),
            }
        }
    }

    /// An unconsumed close request or Escape press terminates the loop.
    pub open spec fn input_exit_spec(event: WindowEvent, consumed: bool) -> bool {
        !consumed && match event {
            WindowEvent::CloseRequested => true,
            WindowEvent::KeyboardInput { pressed, escape } => pressed && escape,
            _ => false,
        }
    }

    /// Builds the initial machine state at clock reading `now`.
    pub fn New(now: u64) -> (r: Runtime)
        ensures
            r == Runtime::initial_spec(now),
    {
        Runtime { resumed: true, focused: true, redraw_requested: true, last_update: now }
    }

    /// Processes one platform event at clock reading `now`. Returns the flow
    /// the loop should take (from the state before the event, as the loop
    /// re-reads it each tick) and the commands to perform, in order. After a
    /// `Cmd::Draw` the driver must report the outcome to `HandleDrawOutcome`,
    /// and after a `Cmd::OfferInput` it must report the application's answer
    /// to `HandleInput`.
    pub fn HandleEvent(&mut self, event: &Event, now: u64) -> (r: (Flow, Vec<Cmd>))
        ensures
            *final(self) == old(self).step_event_state(*event, now),
            r.1@ == old(self).step_event_cmds(*event, now),
            r.0 == old(self).flow_spec(),
    {
        let flow = if self.resumed && self.focused {
            Flow::Poll
        } else {
            Flow::Wait
        };
        let mut cmds: Vec<Cmd> = Vec::new();
        match event {
            Event::Resumed => {
                self.resumed = true;
            },
            Event::Suspended => {
                self.resumed = false;
            },
            Event::RedrawRequested { owned } => {
                if *owned {
                    let delta = if now >= self.last_update {
                        now - self.last_update
                    } else {
                        0
                    };
                    self.last_update = now;
                    self.redraw_requested = false;
                    cmds.push(Cmd::Update { delta });
                    cmds.push(Cmd::Draw);
                }
            },
            Event::MainEventsCleared => {
                if self.focused && self.resumed && !self.redraw_requested {
                    cmds.push(Cmd::RequestRedraw);
                    self.redraw_requested = true;
                } else {
                    self.last_update = now;
                }
            },
            Event::Window { .. } => {
                if let Event::Window { owned: true, .. } = event {
                    cmds.push(Cmd::OfferInput);
                }
            },
            Event::Other => {},
        }
        proof {
            assert(cmds@ =~= old(self).step_event_cmds(*event, now));
        }
        (flow, cmds)
    }

    /// Classifies the outcome of a draw: on a lost surface, reconfigure at
    /// the window's current size and notify the application; on
    /// out-of-memory, exit; on a transient error, do nothing and let the
    /// next frame retry.
    pub fn HandleDrawOutcome(
        &self,
        outcome: &Result<(), SurfaceError>,
        width: u32,
        height: u32,
    ) -> (r: (Flow, Vec<Cmd>))
        ensures
            r.1@ == Runtime::draw_cmds_spec(*outcome, width, height),
            r.0 == if Runtime::draw_exit_spec(*outcome) {
                Flow::Exit
            } else {
                self.flow_spec()
            },
    {
        let mut cmds: Vec<Cmd> = Vec::new();
        let mut flow = if self.resumed && self.focused {
            Flow::Poll
        } else {
            Flow::Wait
        };
        match outcome {
            Ok(_) => {},
            Err(SurfaceError::Lost) => {
                if width > 0 && height > 0 {
                    cmds.push(Cmd::ConfigureSurface { width, height });
                    cmds.push(Cmd::ResizeState);
                }
            },
            Err(SurfaceError::OutOfMemory) => {
                flow = Flow::Exit;
            },
            Err(_) => {},
        }
        proof {
            assert(cmds@ =~= Runtime::draw_cmds_spec(*outcome, width, height));
        }
        (flow, cmds)
    }

    /// Applies the default handling to a window event the application did
    /// not consume: close requests and Escape presses exit, focus changes
    /// update the focus flag, size and scale changes reconfigure the surface
    /// and notify the application.
    pub fn HandleInput(&mut self, event: &WindowEvent, consumed: bool) -> (r: (Flow, Vec<Cmd>))
        ensures
            *final(self) == old(self).step_input_state(*event, consumed),
            r.1@ == Runtime::input_cmds_spec(*event, consumed),
            r.0 == if Runtime::input_exit_spec(*event, consumed) {
                Flow::Exit
            } else {
                old(self).flow_spec()
            },
    {
        let mut cmds: Vec<Cmd> = Vec::new();
        let mut flow = if self.resumed && self.focused {
            Flow::Poll
        } else {
            Flow::Wait
        };
        if !consumed {
            match event {
                WindowEvent::CloseRequested => {
                    flow = Flow::Exit;
                },
                WindowEvent::KeyboardInput { pressed, escape } => {
                    if *pressed && *escape {
                        flow = Flow::Exit;
                    }
                },
                WindowEvent::Focused(focused) => {
                    self.focused = *focused;
                },
                WindowEvent::ScaleFactorChanged { width, height } => {
                    if *width > 0 && *height > 0 {
                        cmds.push(Cmd::ConfigureSurface { width: *width, height: *height });
                        cmds.push(Cmd::ResizeState);
                    }
                },
                WindowEvent::Resized { width, height } => {
                    if *width > 0 && *height > 0 {
                        cmds.push(Cmd::ConfigureSurface { width: *width, height: *height });
                        cmds.push(Cmd::ResizeState);
                    }
                },
                WindowEvent::Other => {},
            }
        }
        proof {
            assert(cmds@ =~= Runtime::input_cmds_spec(*event, consumed));
        }
        (flow, cmds)
    }
}

/// One step of a synthetic run: a platform event, the clock reading at which
/// it is delivered, and the environment's answers — whether the application
/// consumed the event (read when the event is an owned window event), how
/// the draw went (read when the event is an owned redraw callback), and the
/// window's current size (read when a lost surface must be reconfigured).
#[derive(Copy, Clone, Debug, PartialEq, Eq)]
pub struct Step {
    pub event: Event,
    pub now: u64,
    pub consumed: bool,
    pub outcome: Result<(), SurfaceError>,
    pub width: u32,
    pub height: u32,
}

impl Runtime {
    /// Full effect of one step: the state after it, whether the loop exits,
    /// and the commands performed, in order.
    pub open spec fn step_spec(self, st: Step) -> (Runtime, bool, Seq<Cmd>) {
        let s1 = self.step_event_state(st.event, st.now);
        let c1 = self.step_event_cmds(st.event, st.now);
        match st.event {
            Event::RedrawRequested { owned: true } => (
                s1,
                Runtime::draw_exit_spec(st.outcome),
                c1 + Runtime::draw_cmds_spec(st.outcome, st.width, st.height),
            ),
            Event::Window { owned: true, event: we } => (
                s1.step_input_state(we, st.consumed),
                Runtime::input_exit_spec(we, st.consumed),
                c1 + Runtime::input_cmds_spec(we, st.consumed),
            ),
            _ => (s1, false, c1),
        }
    }

    /// Machine state after running a script, stopping at the first exit.
    pub open spec fn run_state(self, script: Seq<Step>) -> Runtime
        decreases script.len(),
    {
        if script.len() == 0 {
            self
        } else {
            let (s1, exit, c) = self.step_spec(script[0]);
            if exit {
                s1
            } else {
                s1.run_state(script.skip(1))
            }
        }
    }

    /// The command trace of a script, stopping at the first exit.
    pub open spec fn run_cmds(self, script: Seq<Step>) -> Seq<Cmd>
        decreases script.len(),
    {
        if script.len() == 0 {
            Seq::empty()
        } else {
            let (s1, exit, c) = self.step_spec(script[0]);
            if exit {
                c
            } else {
                c + s1.run_cmds(script.skip(1))
            }
        }
    }

    /// Runs a synthetic script against the machine and returns the command
    /// trace: the scheduling policy made observable without a platform.
    #[verifier::loop_isolation(false)]
    pub fn RunScript(&mut self, script: &Vec<Step>) -> (trace: Vec<Cmd>)
        ensures
            trace@ == old(self).run_cmds(script@),
            *final(self) == old(self).run_state(script@),
    {
        let mut trace: Vec<Cmd> = Vec::new();
        let n = script.len();
        let mut i: usize = 0;
        proof {
            assert(script@.skip(0) =~= script@);
            assert(Seq::<Cmd>::empty() + old(self).run_cmds(script@) =~= old(self).run_cmds(
                script@,
            ));
        }
        while i < n
            invariant
                0 <= i <= n,
                old(self).run_cmds(script@) == trace@ + self.run_cmds(script@.skip(i as int)),
                old(self).run_state(script@) == self.run_state(script@.skip(i as int)),
            decreases n - i,
        {
            let ghost pre = *self;
            let ghost rest = script@.skip(i as int);
            let st = script[i];
            let (_flow, mut cmds) = self.HandleEvent(&st.event, st.now);
            let mut exit = false;
            match st.event {
                Event::RedrawRequested { owned } => {
                    if owned {
                        let (flow2, mut more) = self.HandleDrawOutcome(
                            &st.outcome,
                            st.width,
                            st.height,
                        );
                        cmds.append(&mut more);
                        if flow2 == Flow::Exit {
                            exit = true;
                        }
                    }
                },
                Event::Window { owned, event: we } => {
                    if owned {
                        let (flow2, mut more) = self.HandleInput(&we, st.consumed);
                        cmds.append(&mut more);
                        if flow2 == Flow::Exit {
                            exit = true;
                        }
                    }
                },
                _ => {},
            }
            proof {
                let (s1, sexit, sc) = pre.step_spec(st);
                assert(rest[0] == st);
                assert(cmds@ =~= sc);
                assert(exit == sexit);
                assert(rest.skip(1) =~= script@.skip(i + 1));
            }
            trace.append(&mut cmds);
            if exit {
                return trace;
            }
            i += 1;
        }
        proof {
            assert(script@.skip(n as int) =~= Seq::<Step>::empty());
        }
        trace
    }
}

impl Runtime {
    /// Whether a run stops at some exit before consuming its whole script.
    pub open spec fn run_exits(self, script: Seq<Step>) -> bool
        decreases script.len(),
    {
        if script.len() == 0 {
            false
        } else {
            let (s1, exit, c) = self.step_spec(script[0]);
            exit || s1.run_exits(script.skip(1))
        }
    }
}

/// The surface dimensions that stand after a command trace is performed:
/// the size of the last surface reconfiguration in it, or the prior
/// dimensions when it holds none.
pub open spec fn surface_dims_after(dims: (u32, u32), cmds: Seq<Cmd>) -> (u32, u32)
    decreases cmds.len(),
{
    if cmds.len() == 0 {
        dims
    } else {
        let next = match cmds[0] {
            Cmd::ConfigureSurface { width, height } => (width, height),
            _ => dims,
        };
        surface_dims_after(next, cmds.skip(1))
    }
}

/// A step that neither draws, nor reconfigures the surface, nor stops the
/// loop: anything except a redraw callback for the owned window, an
/// unconsumed close request or Escape press, or an unconsumed size or
/// scale change with a real area.
pub open spec fn quiet_between_frames(st: Step) -> bool {
    &&& st.event != (Event::RedrawRequested { owned: true })
    &&& match st.event {
        Event::Window { owned: true, event: we } => {
            &&& !Runtime::input_exit_spec(we, st.consumed)
            &&& Runtime::input_cmds_spec(we, st.consumed) == Seq::<Cmd>::empty()
        },
        _ => true,
    }
}

/// Extending a run that has not exited by one step appends exactly that
/// step's commands and advances the state by exactly that step.
pub proof fn lemma_run_snoc(s: Runtime, script: Seq<Step>, st: Step)
    requires
        !s.run_exits(script),
    ensures
        ({
            let s1 = s.run_state(script);
            let (s2, exit2, c2) = s1.step_spec(st);
            &&& s.run_cmds(script.push(st)) == s.run_cmds(script) + c2
            &&& s.run_state(script.push(st)) == s2
            &&& s.run_exits(script.push(st)) == exit2
        }),
    decreases script.len(),
{
    let s1 = s.run_state(script);
    let (s2, exit2, c2) = s1.step_spec(st);
    if script.len() == 0 {
        assert(s1 == s);
        assert(script.push(st) =~= seq![st]);
        assert(seq![st][0] == st);
        assert(seq![st].skip(1) =~= Seq::<Step>::empty());
        assert(s.run_cmds(script) == Seq::<Cmd>::empty());
        assert(s.run_cmds(script) + c2 =~= c2);
        if exit2 {
            assert(s.run_cmds(seq![st]) == c2);
            assert(s.run_state(seq![st]) == s2);
            assert(s.run_exits(seq![st]) == exit2);
        } else {
            assert(s2.run_cmds(seq![st].skip(1)) == Seq::<Cmd>::empty());
            assert(s.run_cmds(seq![st]) == c2 + Seq::<Cmd>::empty());
            assert(c2 + Seq::<Cmd>::empty() =~= c2);
            assert(s2.run_state(seq![st].skip(1)) == s2);
            assert(!s2.run_exits(seq![st].skip(1)));
        }
    } else {
        let (sa, exita, ca) = s.step_spec(script[0]);
        assert(!exita);
        assert(script.push(st)[0] == script[0]);
        assert(script.push(st).skip(1) =~= script.skip(1).push(st));
        assert(s1 == sa.run_state(script.skip(1)));
        lemma_run_snoc(sa, script.skip(1), st);
        assert(sa.run_cmds(script.skip(1).push(st)) == sa.run_cmds(script.skip(1)) + c2);
        assert(s.run_cmds(script.push(st)) == ca + (sa.run_cmds(script.skip(1)) + c2));
        assert((ca + sa.run_cmds(script.skip(1))) + c2 =~= ca + (sa.run_cmds(script.skip(1))
            + c2));
        assert(s.run_cmds(script) == ca + sa.run_cmds(script.skip(1)));
    }
}

/// Appending command traces folds the surface dimensions in two stages.
pub proof fn lemma_surface_dims_append(dims: (u32, u32), a: Seq<Cmd>, b: Seq<Cmd>)
    ensures
        surface_dims_after(dims, a + b) == surface_dims_after(surface_dims_after(dims, a), b),
    decreases a.len(),
{
    if a.len() == 0 {
        assert(a + b =~= b);
    } else {
        let next = match a[0] {
            Cmd::ConfigureSurface { width, height } => (width, height),
            _ => dims,
        };
        assert((a + b)[0] == a[0]);
        assert((a + b).skip(1) =~= a.skip(1) + b);
        lemma_surface_dims_append(next, a.skip(1), b);
    }
}

/// A trace without a surface reconfiguration leaves the dimensions alone.
pub proof fn lemma_surface_dims_still(dims: (u32, u32), cmds: Seq<Cmd>)
    requires
        forall|j: int|
            0 <= j < cmds.len() ==> !((#[trigger] cmds[j]) matches Cmd::ConfigureSurface { .. }),
    ensures
        surface_dims_after(dims, cmds) == dims,
    decreases cmds.len(),
{
    if cmds.len() > 0 {
        assert forall|j: int|
            0 <= j < cmds.skip(1).len() implies !((#[trigger] cmds.skip(
            1,
        )[j]) matches Cmd::ConfigureSurface { .. }) by {
            assert(cmds.skip(1)[j] == cmds[j + 1]);
        }
        lemma_surface_dims_still(dims, cmds.skip(1));
    }
}

/// A run over steps that are quiet between frames neither exits nor moves
/// the surface dimensions.
pub proof fn lemma_quiet_segment(
    s: Runtime,
    dims: (u32, u32),
    script: Seq<Step>,
    j: int,
    m: int,
)
    requires
        0 <= j <= m <= script.len(),
        !s.run_exits(script.take(j)),
        forall|i: int| j <= i < m ==> quiet_between_frames(#[trigger] script[i]),
    ensures
        !s.run_exits(script.take(m)),
        surface_dims_after(dims, s.run_cmds(script.take(m))) == surface_dims_after(
            dims,
            s.run_cmds(script.take(j)),
        ),
    decreases m - j,
{
    if j < m {
        let pre = script.take(j);
        assert(script.take(j + 1) =~= pre.push(script[j]));
        lemma_run_snoc(s, pre, script[j]);
        let s1 = s.run_state(pre);
        let (s2, exit2, c2) = s1.step_spec(script[j]);
        assert(quiet_between_frames(script[j]));
        assert(!exit2);
        assert forall|q: int|
            0 <= q < c2.len() implies !((#[trigger] c2[q]) matches Cmd::ConfigureSurface {
            .. }) by {
            if script[j].event matches Event::Window { owned: true, event: we } {
                assert(c2 =~= seq![Cmd::OfferInput]);
            }
        }
        lemma_surface_dims_append(dims, s.run_cmds(pre), c2);
        lemma_surface_dims_still(surface_dims_after(dims, s.run_cmds(pre)), c2);
        lemma_quiet_segment(s, dims, script, j + 1, m);
    }
}

/// The general ordering of resize and draw: once the unconsumed resize to
/// `(width, height)` at step `k` is processed, and every later step up to
/// the redraw callback at step `m` is quiet — no draw, no surface
/// reconfiguration, no exit — the draw of that callback runs against
/// surface dimensions exactly `(width, height)`: whatever the dimensions
/// were before the run, after every command issued ahead of that draw the
/// surface stands at `(width, height)`.
pub proof fn law_resize_holds_until_draw(
    s: Runtime,
    dims: (u32, u32),
    script: Seq<Step>,
    k: int,
    m: int,
    width: u32,
    height: u32,
)
    requires
        0 <= k < m < script.len(),
        !s.run_exits(script.take(k)),
        script[k].event == (Event::Window {
            owned: true,
            event: WindowEvent::Resized { width, height },
        }),
        !script[k].consumed,
        width > 0,
        height > 0,
        forall|i: int| k < i < m ==> quiet_between_frames(#[trigger] script[i]),
        script[m].event == (Event::RedrawRequested { owned: true }),
    ensures
        !s.run_exits(script.take(m)),
        surface_dims_after(dims, s.run_cmds(script.take(m))) == (width, height),
{
    let pre = script.take(k);
    assert(script.take(k + 1) =~= pre.push(script[k]));
    lemma_run_snoc(s, pre, script[k]);
    let s1 = s.run_state(pre);
    let (s2, exit2, c2) = s1.step_spec(script[k]);
    assert(c2 =~= seq![
        Cmd::OfferInput,
        Cmd::ConfigureSurface { width, height },
        Cmd::ResizeState,
    ]);
    assert(!exit2);
    lemma_surface_dims_append(dims, s.run_cmds(pre), c2);
    assert(surface_dims_after(surface_dims_after(dims, s.run_cmds(pre)), c2) == (
        width,
        height,
    )) by {
        let start = surface_dims_after(dims, s.run_cmds(pre));
        let tail2 = seq![Cmd::ConfigureSurface { width, height }, Cmd::ResizeState];
        let tail1 = seq![Cmd::ResizeState];
        assert(c2.skip(1) =~= tail2);
        assert(tail2.skip(1) =~= tail1);
        assert(tail1.skip(1) =~= Seq::<Cmd>::empty());
        assert(surface_dims_after((width, height), Seq::<Cmd>::empty()) == (width, height));
        assert(surface_dims_after((width, height), tail1) == (width, height));
        assert(surface_dims_after(start, tail2) == (width, height));
        assert(surface_dims_after(start, c2) == (width, height));
    }
    lemma_quiet_segment(s, dims, script, k + 1, m);
}

/// In a run whose clock readings never fall below `bound`, and whose start
/// state was last updated at or after `bound`, the clock of the last update
/// stays at or after `bound`.
pub proof fn lemma_last_update_lower_bound(s: Runtime, script: Seq<Step>, bound: u64)
    requires
        s.last_update >= bound,
        forall|i: int| 0 <= i < script.len() ==> #[trigger] script[i].now >= bound,
    ensures
        s.run_state(script).last_update >= bound,
    decreases script.len(),
{
    if script.len() > 0 {
        let (s1, exit, c) = s.step_spec(script[0]);
        assert(s1.last_update >= bound);
        if !exit {
            assert forall|i: int| 0 <= i < script.skip(1).len() implies #[trigger] script.skip(
                1,
            )[i].now >= bound by {
                assert(script.skip(1)[i] == script[i + 1]);
            }
            lemma_last_update_lower_bound(s1, script.skip(1), bound);
        }
    }
}

/// Frame deltas never reach back before the run began. The delta is a
/// difference of unsigned clock readings, so it is non-negative by
/// construction; this law adds the upper bound: in any run whose clock
/// readings stay at or above the machine's last update, the update command
/// of the redraw callback at step `k` carries a delta of at most the time
/// elapsed, at that step, since the run began. Because each idle wake-up
/// outside the foreground resets the last update to its own clock reading,
/// applying this law at such a reset also shows that the first delta after
/// focus returns does not include the unfocused interval.
pub proof fn law_update_delta_bounded(s: Runtime, script: Seq<Step>, k: int)
    requires
        0 <= k < script.len(),
        forall|i: int| 0 <= i < script.len() ==> #[trigger] script[i].now >= s.last_update,
        script[k].event == (Event::RedrawRequested { owned: true }),
    ensures
        ({
            let sk = s.run_state(script.take(k));
            let delta = sk.delta_spec(script[k].now);
            &&& sk.step_event_cmds(script[k].event, script[k].now) == seq![
                Cmd::Update { delta },
                Cmd::Draw,
            ]
            &&& delta <= script[k].now - s.last_update
        }),
{
    assert forall|i: int| 0 <= i < script.take(k).len() implies #[trigger] script.take(
        k,
    )[i].now >= s.last_update by {
        assert(script.take(k)[i] == script[i]);
    }
    lemma_last_update_lower_bound(s, script.take(k), s.last_update);
}

/// Between consecutive redraw callbacks the frame delta never exceeds the
/// wall-clock time that actually elapsed: after a redraw callback at clock
/// reading `t`, the update of the next redraw callback — at step `k` of
/// whatever follows — carries a delta of at most the time elapsed since
/// `t`.
pub proof fn law_consecutive_redraw_delta(s: Runtime, t: u64, script: Seq<Step>, k: int)
    requires
        0 <= k < script.len(),
        forall|i: int| 0 <= i < script.len() ==> #[trigger] script[i].now >= t,
        script[k].event == (Event::RedrawRequested { owned: true }),
    ensures
        ({
            let s1 = s.step_event_state(Event::RedrawRequested { owned: true }, t);
            let sk = s1.run_state(script.take(k));
            sk.delta_spec(script[k].now) <= script[k].now - t
        }),
{
    let s1 = s.step_event_state(Event::RedrawRequested { owned: true }, t);
    assert(s1.last_update == t);
    law_update_delta_bounded(s1, script, k);
}

/// Upon regaining focus, the first frame delta does not include the
/// unfocused interval: an idle wake-up at clock reading `t` while the
/// window is out of the foreground freezes the clock, so the update of a
/// redraw callback at step `k` of what follows carries a delta of at most
/// the time elapsed since `t`.
pub proof fn law_refocus_delta(s: Runtime, t: u64, script: Seq<Step>, k: int)
    requires
        !s.foreground(),
        0 <= k < script.len(),
        forall|i: int| 0 <= i < script.len() ==> #[trigger] script[i].now >= t,
        script[k].event == (Event::RedrawRequested { owned: true }),
    ensures
        ({
            let s1 = s.step_event_state(Event::MainEventsCleared, t);
            let sk = s1.run_state(script.take(k));
            sk.delta_spec(script[k].now) <= script[k].now - t
        }),
{
    let s1 = s.step_event_state(Event::MainEventsCleared, t);
    assert(s1.last_update == t);
    law_update_delta_bounded(s1, script, k);
}

/// While the window is unfocused or suspended and no redraw is pending, no
/// update/draw pair is invoked and no redraw is requested: a run of events
/// that does not resume the session or restore focus — and in which a
/// redraw callback for the owned window is only ever delivered when one was
/// requested — issues no `Update`, `Draw` or `RequestRedraw` command, and
/// the machine stays out of the foreground with no redraw pending.
pub proof fn law_background_no_frames(s: Runtime, script: Seq<Step>)
    requires
        !s.foreground(),
        !s.redraw_requested,
        forall|i: int| 0 <= i < script.len() ==> #[trigger] script[i].event != Event::Resumed,
        forall|i: int|
            0 <= i < script.len() ==> ((#[trigger] script[i].event) matches Event::Window {
                owned: true,
                event: WindowEvent::Focused(true),
            } ==> script[i].consumed),
        forall|i: int|
            0 <= i < script.len() ==> ((#[trigger] script[i].event) == (Event::RedrawRequested {
                owned: true,
            }) ==> s.run_state(script.take(i)).redraw_requested),
    ensures
        !s.run_state(script).foreground(),
        !s.run_state(script).redraw_requested,
        forall|j: int|
            0 <= j < s.run_cmds(script).len() ==> !((#[trigger] s.run_cmds(
                script,
            )[j]) matches Cmd::Update { .. }) && s.run_cmds(script)[j] != Cmd::Draw && s.run_cmds(
                script,
            )[j] != Cmd::RequestRedraw,
    decreases script.len(),
{
    if script.len() > 0 {
        let st = script[0];
        let (s1, exit, c) = s.step_spec(st);
        assert(script.take(0) =~= Seq::<Step>::empty());
        assert(st.event != (Event::RedrawRequested { owned: true }));
        assert(!s1.foreground());
        assert(!s1.redraw_requested);
        assert forall|j: int|
            0 <= j < c.len() implies !((#[trigger] c[j]) matches Cmd::Update { .. }) && c[j]
            != Cmd::Draw && c[j] != Cmd::RequestRedraw by {}
        if !exit {
            let rest = script.skip(1);
            assert forall|i: int| 0 <= i < rest.len() implies #[trigger] rest[i].event
                != Event::Resumed by {
                assert(rest[i] == script[i + 1]);
            }
            assert forall|i: int|
                0 <= i < rest.len() implies ((#[trigger] rest[i].event) matches Event::Window {
                owned: true,
                event: WindowEvent::Focused(true),
            } ==> rest[i].consumed) by {
                assert(rest[i] == script[i + 1]);
            }
            assert forall|i: int|
                0 <= i < rest.len() implies ((#[trigger] rest[i].event)
                == (Event::RedrawRequested { owned: true }) ==> s1.run_state(
                rest.take(i),
            ).redraw_requested) by {
                assert(rest[i] == script[i + 1]);
                if rest[i].event == (Event::RedrawRequested { owned: true }) {
                    assert(script.take(i + 1).skip(1) =~= rest.take(i));
                    assert(script.take(i + 1)[0] == st);
                    assert(s.run_state(script.take(i + 1)) == s1.run_state(rest.take(i)));
                }
            }
            law_background_no_frames(s1, rest);
            assert forall|j: int|
                0 <= j < s.run_cmds(script).len() implies !((#[trigger] s.run_cmds(
                script,
            )[j]) matches Cmd::Update { .. }) && s.run_cmds(script)[j] != Cmd::Draw && s.run_cmds(
                script,
            )[j] != Cmd::RequestRedraw by {
                if j >= c.len() {
                    assert(s.run_cmds(script)[j] == s1.run_cmds(rest)[j - c.len()]);
                }
            }
        }
    }
}

/// A draw that reports a lost surface is followed, within the same redraw
/// callback and before anything else can run, by exactly one surface
/// reconfiguration at the window's current size and exactly one resize
/// notification to the application; the loop does not exit. The window
/// must report a real size: a minimized, zero-area window cannot be
/// reconfigured, and recovery then waits for a size to arrive.
pub proof fn law_lost_surface_recovered(s: Runtime, st: Step)
    requires
        st.event == (Event::RedrawRequested { owned: true }),
        st.outcome == Err::<(), SurfaceError>(SurfaceError::Lost),
        st.width > 0,
        st.height > 0,
    ensures
        ({
            let (s1, exit, cmds) = s.step_spec(st);
            &&& cmds =~= seq![
                Cmd::Update { delta: s.delta_spec(st.now) },
                Cmd::Draw,
                Cmd::ConfigureSurface { width: st.width, height: st.height },
                Cmd::ResizeState,
            ]
            &&& !exit
        }),
{
}

/// Ordering of resize and draw: a resize event is fully applied — surface
/// reconfigured at the new size, application notified — before the event
/// settles, so a redraw that follows runs against the new dimensions and
/// nothing runs in between. The two-step run of an unconsumed resize to
/// `(width, height)` followed by a successful redraw callback performs
/// exactly: the input offer, the surface reconfiguration at
/// `(width, height)`, one resize notification, then one update and one
/// draw.
pub proof fn law_resize_before_draw(
    s: Runtime,
    resize: Step,
    redraw: Step,
    width: u32,
    height: u32,
)
    requires
        resize.event == (Event::Window {
            owned: true,
            event: WindowEvent::Resized { width, height },
        }),
        width > 0,
        height > 0,
        !resize.consumed,
        redraw.event == (Event::RedrawRequested { owned: true }),
        redraw.outcome == Ok::<(), SurfaceError>(()),
    ensures
        s.run_cmds(seq![resize, redraw]) =~= seq![
            Cmd::OfferInput,
            Cmd::ConfigureSurface { width, height },
            Cmd::ResizeState,
            Cmd::Update { delta: s.delta_spec(redraw.now) },
            Cmd::Draw,
        ],
{
    let script = seq![resize, redraw];
    assert(script.skip(1) =~= seq![redraw]);
    assert(seq![redraw].skip(1) =~= Seq::<Step>::empty());
    let (s1, exit1, c1) = s.step_spec(resize);
    assert(s1 == s);
    assert(!exit1);
    assert(c1 =~= seq![
        Cmd::OfferInput,
        Cmd::ConfigureSurface { width, height },
        Cmd::ResizeState,
    ]);
    let (s2, exit2, c2) = s1.step_spec(redraw);
    assert(c2 =~= seq![Cmd::Update { delta: s.delta_spec(redraw.now) }, Cmd::Draw]);
    assert(seq![redraw][0] == redraw);
    assert(!exit2);
    assert(s1.run_cmds(seq![redraw]) == c2 + s2.run_cmds(seq![redraw].skip(1)));
    assert(s1.run_cmds(seq![redraw]) =~= c2);
    assert(s.run_cmds(script) =~= c1 + c2);
}

/// A draw that reports out-of-memory terminates the event loop: the trace
/// of any script whose first step is such a redraw callback ends with that
/// very draw — no further update, draw or input offer follows, whatever the
/// rest of the script holds.
pub proof fn law_out_of_memory_terminates(s: Runtime, script: Seq<Step>)
    requires
        script.len() > 0,
        script[0].event == (Event::RedrawRequested { owned: true }),
        script[0].outcome == Err::<(), SurfaceError>(SurfaceError::OutOfMemory),
    ensures
        s.run_cmds(script) =~= seq![Cmd::Update { delta: s.delta_spec(script[0].now) }, Cmd::Draw],
{
}

} // verus!
