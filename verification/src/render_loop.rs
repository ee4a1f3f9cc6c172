//! The render loop: one tick draws the current frame and then works through
//! the window events that arrived since the previous tick.
//!
//! The loop decides and the host performs.  A tick takes the clock reading
//! and the pending events, updates the loop's state and returns the backend
//! commands to carry out, in order, together with the word whether to go on.
use crate::clock::ClockState;
use crate::pointer::{PointerState, WindowSize};
use vstd::prelude::*;

verus! {

/// What the windowing system reports to the loop.
#[derive(Clone, Copy, Debug, PartialEq, Eq)]
pub enum WindowEvent {
    /// The user asked to close the window.
    CloseRequested,
    /// The window's drawable area now has this extent.
    Resized { width: u32, height: u32 },
    /// The pointer moved to this pixel of the window.
    CursorMoved { x: i32, y: i32 },
    /// Any other event.  The loop ignores it.
    Other,
}

/// The loop's two states.  `Terminated` is absorbing.
#[derive(Clone, Copy, Debug, PartialEq, Eq)]
pub enum Phase {
    Running,
    Terminated,
}

/// What the host does after a tick.
#[derive(Clone, Copy, Debug, PartialEq, Eq)]
pub enum Action {
    /// Run another tick.
    Continue,
    /// Leave the loop.
    Terminate,
}

/// The values handed to the fragment shader for one frame.
#[derive(Clone, Copy, Debug, PartialEq, Eq)]
pub struct UniformSet {
    /// Elapsed time in nanoseconds.
    pub t: u64,
    /// Normalised pointer position.
    pub m: PointerState,
}

/// One request to the graphics backend.
#[derive(Clone, Copy, Debug, PartialEq, Eq)]
pub enum Command {
    /// Begin a frame, clear it, draw the quad with these uniforms under the
    /// default render state, and present it.
    DrawFrame { uniforms: UniformSet },
    /// Begin a frame, clear it, and present it without drawing geometry.
    ClearFrame,
    /// Give the backend's surface this extent.
    ResizeSurface { width: u32, height: u32 },
}

/// The colour every frame is cleared to, as red, green, blue and alpha:
/// opaque blue.
pub fn clear_color() -> (rgba: (u8, u8, u8, u8))
    ensures
        rgba == (0u8, 0u8, 1u8, 1u8),
{
    (0, 0, 1, 1)
}

/// Everything the loop owns between ticks.
#[derive(Clone, Copy, Debug, PartialEq, Eq)]
pub struct RenderLoopState {
    pub clock: ClockState,
    pub pointer: PointerState,
    pub size: WindowSize,
    pub phase: Phase,
}

impl RenderLoopState {
    /// The clock and the pointer state are well formed.
    pub open spec fn wf(self) -> bool {
        self.clock.wf() && self.pointer.wf()
    }

    /// The loop has not been asked to close.
    pub open spec fn running(self) -> bool {
        self.phase == Phase::Running
    }

    /// The state of a loop that starts at instant `now` in a window of
    /// extent `size`.
    pub open spec fn started(now: u64, size: WindowSize) -> RenderLoopState {
        RenderLoopState {
            clock: ClockState { elapsed_total: 0, last_tick: now },
            pointer: PointerState::at_origin(),
            size,
            phase: Phase::Running,
        }
    }

    /// The uniforms of a frame drawn in this state.
    pub open spec fn uniform_set(self) -> UniformSet {
        UniformSet { t: self.clock.elapsed_total, m: self.pointer }
    }

    /// What the host is told in this state.
    pub open spec fn action(self) -> Action {
        if self.running() {
            Action::Continue
        } else {
            Action::Terminate
        }
    }

    /// The state after one event.
    pub open spec fn after_event(self, event: WindowEvent) -> RenderLoopState {
        if !self.running() {
            self
        } else {
            match event {
                WindowEvent::CloseRequested => RenderLoopState { phase: Phase::Terminated, ..self },
                WindowEvent::Resized { width, height } => RenderLoopState {
                    size: WindowSize { width, height },
                    ..self
                },
                WindowEvent::CursorMoved { x, y } => RenderLoopState {
                    pointer: self.pointer.moved_to(x, y, self.size),
                    ..self
                },
                WindowEvent::Other => self,
            }
        }
    }

    /// The commands one event gives rise to in this state.
    pub open spec fn event_commands(self, event: WindowEvent) -> Seq<Command> {
        if !self.running() {
            Seq::empty()
        } else {
            match event {
                WindowEvent::Resized { width, height } => seq![
                    Command::ClearFrame,
                    Command::ResizeSurface { width, height },
                ],
                _ => Seq::empty(),
            }
        }
    }

    /// The state after a run of events, handled first to last.
    pub open spec fn after_events(self, events: Seq<WindowEvent>) -> RenderLoopState
        decreases events.len(),
    {
        if events.len() == 0 {
            self
        } else {
            self.after_events(events.drop_last()).after_event(events.last())
        }
    }

    /// The commands a run of events gives rise to, in order.
    pub open spec fn events_commands(self, events: Seq<WindowEvent>) -> Seq<Command>
        decreases events.len(),
    {
        if events.len() == 0 {
            Seq::empty()
        } else {
            self.events_commands(events.drop_last()) + self.after_events(
                events.drop_last(),
            ).event_commands(events.last())
        }
    }

    /// The state once a frame has been timed at reading `now`.
    pub open spec fn after_frame(self, now: u64) -> RenderLoopState {
        RenderLoopState { clock: self.clock.advanced(now), ..self }
    }

    /// The state after a tick at reading `now` with `events` pending.
    pub open spec fn after_tick(self, now: u64, events: Seq<WindowEvent>) -> RenderLoopState {
        if self.running() {
            self.after_frame(now).after_events(events)
        } else {
            self
        }
    }

    /// The commands of a tick at reading `now` with `events` pending: the
    /// frame first, drawn whether or not any event arrived, then what the
    /// events ask for.
    pub open spec fn tick_commands(self, now: u64, events: Seq<WindowEvent>) -> Seq<Command> {
        if self.running() {
            seq![Command::DrawFrame { uniforms: self.after_frame(now).uniform_set() }]
                + self.after_frame(now).events_commands(events)
        } else {
            Seq::empty()
        }
    }

    /// Starts the loop at instant `now` in a window of extent `size`.
    pub fn new(now: u64, size: WindowSize) -> (state: RenderLoopState)
        ensures
            state == Self::started(now, size),
            state.wf(),
    {
        RenderLoopState {
            clock: ClockState::new(now),
            pointer: PointerState::origin(),
            size,
            phase: Phase::Running,
        }
    }

    /// Tells whether the state is well formed.  Every state that `new`,
    /// `handle_event` and `tick` produce is; a host that builds a state
    /// from its fields can ask before it ticks.
    pub fn is_valid(&self) -> (ok: bool)
        ensures
            ok == self.wf(),
    {
        self.clock.elapsed_total <= self.clock.last_tick && self.pointer.x_norm.den > 0
            && self.pointer.y_norm.den > 0
    }

    /// Tells whether the loop is still running.
    pub fn is_running(&self) -> (r: bool)
        ensures
            r == self.running(),
    {
        match self.phase {
            Phase::Running => true,
            Phase::Terminated => false,
        }
    }

    /// The uniforms of a frame drawn now.
    pub fn uniforms(&self) -> (u: UniformSet)
        ensures
            u == self.uniform_set(),
    {
        UniformSet { t: self.clock.elapsed_total, m: self.pointer }
    }

    /// Handles one window event and returns the commands it asks for.
    pub fn handle_event(&mut self, event: WindowEvent) -> (commands: Vec<Command>)
        ensures
            *final(self) == old(self).after_event(event),
            commands@ == old(self).event_commands(event),
            old(self).wf() ==> final(self).wf(),
    {
        let mut commands: Vec<Command> = Vec::new();
        if self.is_running() {
            match event {
                WindowEvent::CloseRequested => {
                    self.phase = Phase::Terminated;
                },
                WindowEvent::Resized { width, height } => {
                    commands.push(Command::ClearFrame);
                    commands.push(Command::ResizeSurface { width, height });
                    self.size = WindowSize { width, height };
                },
                WindowEvent::CursorMoved { x, y } => {
                    let size = self.size;
                    self.pointer.record_move(x, y, size);
                },
                WindowEvent::Other => {},
            }
        }
        assert(commands@ =~= old(self).event_commands(event));
        commands
    }

    /// Runs one tick: times and draws a frame, then handles `events` in
    /// order.  A loop that has terminated does nothing.
    pub fn tick(&mut self, now: u64, events: &Vec<WindowEvent>) -> (out: (Vec<Command>, Action))
        requires
            old(self).wf(),
        ensures
            *final(self) == old(self).after_tick(now, events@),
            out.0@ == old(self).tick_commands(now, events@),
            out.1 == final(self).action(),
            final(self).wf(),
    {
        let mut commands: Vec<Command> = Vec::new();
        if !self.is_running() {
            return (commands, Action::Terminate);
        }
        let _dt: u64 = self.clock.advance(now);
        let frame = Command::DrawFrame { uniforms: self.uniforms() };
        commands.push(frame);
        let ghost framed = *self;
        assert(framed == old(self).after_frame(now));
        assert(commands@ =~= seq![frame] + framed.events_commands(events@.take(0)));
        let mut i: usize = 0;
        while i < events.len()
            invariant
                0 <= i <= events.len(),
                framed.wf(),
                self.wf(),
                *self == framed.after_events(events@.take(i as int)),
                commands@ == seq![frame] + framed.events_commands(events@.take(i as int)),
            decreases events.len() - i,
        {
            let mut emitted = self.handle_event(events[i]);
            commands.append(&mut emitted);
            proof {
                let next = events@.take(i + 1);
                assert(next.drop_last() =~= events@.take(i as int));
                assert(next.last() == events@[i as int]);
                assert(commands@ =~= seq![frame] + framed.events_commands(next));
            }
            i += 1;
        }
        assert(events@.take(i as int) =~= events@);
        let action = if self.is_running() {
            Action::Continue
        } else {
            Action::Terminate
        };
        (commands, action)
    }
}

} // verus!
