//! What holds of the render loop over whole runs of events and frames.
use crate::pointer::{PointerState, WindowSize};
use crate::render_loop::{Action, Command, Phase, RenderLoopState, WindowEvent};
use vstd::prelude::*;

verus! {

/// The state after a run of ticks that find no event pending, one tick per
/// clock reading in `nows`.
pub open spec fn after_idle_ticks(start: RenderLoopState, nows: Seq<u64>) -> RenderLoopState
    decreases nows.len(),
{
    if nows.len() == 0 {
        start
    } else {
        after_idle_ticks(start, nows.drop_last()).after_tick(nows.last(), Seq::empty())
    }
}

/// The delta that a tick at reading `now` observes in `state`.
pub open spec fn observed_delta(state: RenderLoopState, now: u64) -> nat {
    if state.running() {
        state.clock.delta(now)
    } else {
        0
    }
}

/// The sum of the deltas observed over a run of idle ticks.
pub open spec fn observed_total(start: RenderLoopState, nows: Seq<u64>) -> nat
    decreases nows.len(),
{
    if nows.len() == 0 {
        0
    } else {
        observed_total(start, nows.drop_last()) + observed_delta(
            after_idle_ticks(start, nows.drop_last()),
            nows.last(),
        )
    }
}

/// Whether `command` draws geometry.
pub open spec fn draws_geometry(command: Command) -> bool {
    command is DrawFrame
}

/// Events never touch the clock, and they keep a well-formed state well
/// formed.
pub proof fn lemma_events_keep_clock(start: RenderLoopState, events: Seq<WindowEvent>)
    requires
        start.wf(),
    ensures
        start.after_events(events).clock == start.clock,
        start.after_events(events).wf(),
    decreases events.len(),
{
    if events.len() > 0 {
        lemma_events_keep_clock(start, events.drop_last());
    }
}

/// Over any run of ticks without events the elapsed total equals its value
/// at the start plus the sum of the deltas observed, it never decreases from
/// one tick to the next, and nothing but the clock changes.
pub proof fn lemma_idle_ticks_accumulate(start: RenderLoopState, nows: Seq<u64>)
    requires
        start.wf(),
    ensures
        after_idle_ticks(start, nows).wf(),
        after_idle_ticks(start, nows).clock.elapsed_total == start.clock.elapsed_total
            + observed_total(start, nows),
        after_idle_ticks(start, nows).clock.elapsed_total >= start.clock.elapsed_total,
        nows.len() > 0 ==> after_idle_ticks(start, nows).clock.elapsed_total >= after_idle_ticks(
            start,
            nows.drop_last(),
        ).clock.elapsed_total,
        after_idle_ticks(start, nows).pointer == start.pointer,
        after_idle_ticks(start, nows).size == start.size,
        after_idle_ticks(start, nows).phase == start.phase,
    decreases nows.len(),
{
    if nows.len() > 0 {
        lemma_idle_ticks_accumulate(start, nows.drop_last());
        let before = after_idle_ticks(start, nows.drop_last());
        assert(before.after_frame(nows.last()).after_events(Seq::empty()) == before.after_frame(
            nows.last(),
        ));
    }
}

/// The delta of a tick is the distance from the instant stored before it to
/// the instant stored after it, so it is never negative; the instant a tick
/// uses predates neither the one stored by the tick before nor, while the
/// loop runs, the clock reading; and the elapsed total grows by that delta.
pub proof fn lemma_tick_never_goes_back(
    state: RenderLoopState,
    now: u64,
    events: Seq<WindowEvent>,
)
    requires
        state.wf(),
    ensures
        state.after_tick(now, events).wf(),
        state.after_tick(now, events).clock.last_tick >= state.clock.last_tick,
        state.after_tick(now, events).clock.last_tick == state.clock.last_tick + observed_delta(
            state,
            now,
        ),
        state.after_tick(now, events).clock.elapsed_total == state.clock.elapsed_total
            + observed_delta(state, now),
        state.running() ==> state.after_tick(now, events).clock.last_tick >= now,
{
    if state.running() {
        lemma_events_keep_clock(state.after_frame(now), events);
    }
}

/// Of two ticks in a row, the second uses an instant that does not predate
/// the instant the first stored.
pub proof fn lemma_consecutive_ticks_ordered(
    state: RenderLoopState,
    first_now: u64,
    first_events: Seq<WindowEvent>,
    second_now: u64,
    second_events: Seq<WindowEvent>,
)
    requires
        state.wf(),
    ensures
        state.after_tick(first_now, first_events).after_tick(
            second_now,
            second_events,
        ).clock.last_tick >= state.after_tick(first_now, first_events).clock.last_tick,
        state.after_tick(first_now, first_events).after_tick(
            second_now,
            second_events,
        ).clock.elapsed_total >= state.after_tick(first_now, first_events).clock.elapsed_total,
{
    lemma_tick_never_goes_back(state, first_now, first_events);
    lemma_tick_never_goes_back(state.after_tick(first_now, first_events), second_now, second_events);
}

/// In a running loop whose window has area, a pointer move to pixel
/// `(x, y)` sets the pointer state to `x` over the width and `y` over the
/// height.  It changes nothing else and asks nothing of the backend.
pub proof fn lemma_cursor_moved_normalizes(state: RenderLoopState, x: i32, y: i32)
    requires
        state.running(),
        state.size.width > 0,
        state.size.height > 0,
    ensures
        state.after_event(WindowEvent::CursorMoved { x, y }).pointer == PointerState::normalized(
            x,
            y,
            state.size,
        ),
        state.after_event(WindowEvent::CursorMoved { x, y }).pointer.wf(),
        state.after_event(WindowEvent::CursorMoved { x, y }).clock == state.clock,
        state.after_event(WindowEvent::CursorMoved { x, y }).size == state.size,
        state.after_event(WindowEvent::CursorMoved { x, y }).phase == state.phase,
        state.event_commands(WindowEvent::CursorMoved { x, y }) == Seq::<Command>::empty(),
{
}

/// While the window's width or height is zero, a pointer move leaves the
/// whole state as it was.
pub proof fn lemma_cursor_moved_without_area(state: RenderLoopState, x: i32, y: i32)
    requires
        state.size.width == 0 || state.size.height == 0,
    ensures
        state.after_event(WindowEvent::CursorMoved { x, y }) == state,
        state.event_commands(WindowEvent::CursorMoved { x, y }) == Seq::<Command>::empty(),
{
}

/// In a running loop a resize sets the window extent to the new one, changes
/// nothing else, and asks the backend for exactly one clear-only frame and
/// then for the new surface extent: no geometry is drawn on its account.
pub proof fn lemma_resized_updates_and_clears(state: RenderLoopState, width: u32, height: u32)
    requires
        state.running(),
    ensures
        state.after_event(WindowEvent::Resized { width, height }).size == (WindowSize {
            width,
            height,
        }),
        state.after_event(WindowEvent::Resized { width, height }).clock == state.clock,
        state.after_event(WindowEvent::Resized { width, height }).pointer == state.pointer,
        state.after_event(WindowEvent::Resized { width, height }).phase == state.phase,
        state.event_commands(WindowEvent::Resized { width, height }) == seq![
            Command::ClearFrame,
            Command::ResizeSurface { width, height },
        ],
{
}

/// No event ever asks for geometry to be drawn.
pub proof fn lemma_events_draw_nothing(start: RenderLoopState, events: Seq<WindowEvent>)
    ensures
        forall|k: int|
            0 <= k < start.events_commands(events).len() ==> !draws_geometry(
                #[trigger] start.events_commands(events)[k],
            ),
    decreases events.len(),
{
    if events.len() > 0 {
        let head = events.drop_last();
        lemma_events_draw_nothing(start, head);
        let earlier = start.events_commands(head);
        let latest = start.after_events(head).event_commands(events.last());
        assert forall|k: int| 0 <= k < start.events_commands(events).len() implies !draws_geometry(
            #[trigger] start.events_commands(events)[k],
        ) by {
            if k < earlier.len() {
                assert(start.events_commands(events)[k] == earlier[k]);
            } else {
                assert(start.events_commands(events)[k] == latest[k - earlier.len()]);
            }
        }
    }
}

/// A tick of a running loop draws geometry exactly once, as its first
/// command, whatever events are pending.  Every clear-only frame that a
/// resize asks for therefore comes before the next drawn frame.
pub proof fn lemma_tick_draws_once_first(
    state: RenderLoopState,
    now: u64,
    events: Seq<WindowEvent>,
)
    requires
        state.running(),
    ensures
        state.tick_commands(now, events).len() >= 1,
        state.tick_commands(now, events)[0] == (Command::DrawFrame {
            uniforms: state.after_frame(now).uniform_set(),
        }),
        forall|k: int|
            1 <= k < state.tick_commands(now, events).len() ==> !draws_geometry(
                #[trigger] state.tick_commands(now, events)[k],
            ),
{
    lemma_events_draw_nothing(state.after_frame(now), events);
}

/// A close request ends a running loop and changes nothing else.
pub proof fn lemma_close_terminates(state: RenderLoopState)
    requires
        state.running(),
    ensures
        state.after_event(WindowEvent::CloseRequested) == (RenderLoopState {
            phase: Phase::Terminated,
            ..state
        }),
        state.after_event(WindowEvent::CloseRequested).action() == Action::Terminate,
        state.event_commands(WindowEvent::CloseRequested) == Seq::<Command>::empty(),
{
}

/// Once terminated, the loop stays as it is: events and ticks change
/// nothing, ask nothing of the backend, and the host is told to stop.
pub proof fn lemma_terminated_is_absorbing(
    state: RenderLoopState,
    now: u64,
    events: Seq<WindowEvent>,
)
    requires
        !state.running(),
    ensures
        state.after_events(events) == state,
        state.events_commands(events) == Seq::<Command>::empty(),
        state.after_tick(now, events) == state,
        state.tick_commands(now, events) == Seq::<Command>::empty(),
        state.action() == Action::Terminate,
    decreases events.len(),
{
    if events.len() > 0 {
        lemma_terminated_is_absorbing(state, now, events.drop_last());
        assert(state.events_commands(events) =~= Seq::<Command>::empty());
    }
}

/// A run of events leaves a running loop running exactly when none of them
/// is a close request.
pub proof fn lemma_running_iff_no_close(start: RenderLoopState, events: Seq<WindowEvent>)
    requires
        start.running(),
    ensures
        start.after_events(events).running() <==> !events.contains(WindowEvent::CloseRequested),
    decreases events.len(),
{
    let close = WindowEvent::CloseRequested;
    if events.len() > 0 {
        let head = events.drop_last();
        lemma_running_iff_no_close(start, head);
        if head.contains(close) {
            let k = choose|k: int| 0 <= k < head.len() && head[k] == close;
            assert(events[k] == close);
        }
        if events.last() == close {
            assert(events[events.len() - 1] == close);
        }
        if events.contains(close) {
            let k = choose|k: int| 0 <= k < events.len() && events[k] == close;
            if k < events.len() - 1 {
                assert(head[k] == close);
            }
        }
    }
}

/// A tick of a running loop tells the host to stop exactly when a close
/// request was among the pending events.
pub proof fn lemma_tick_stops_iff_close(
    state: RenderLoopState,
    now: u64,
    events: Seq<WindowEvent>,
)
    requires
        state.running(),
    ensures
        state.after_tick(now, events).action() == Action::Terminate <==> events.contains(
            WindowEvent::CloseRequested,
        ),
{
    lemma_running_iff_no_close(state.after_frame(now), events);
}

} // verus!
