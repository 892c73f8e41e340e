//! Decision logic of the tick activity: what one wake-up of the once-a-second
//! loop does, given which of its two awaited events fired. The actual timer
//! and the shutdown broadcast are async I/O and live outside the crate.

use vstd::prelude::*;

use crate::app::Pomodoro;
use crate::app::TimerState;
use crate::app::spec_tick;

verus! {

/// The events the tick loop can wake on: its one-second timer fired; the
/// shutdown broadcast changed to the given value; or the broadcast channel
/// closed with no senders left (an implicit shutdown, not an error).
#[derive(Clone, Copy, PartialEq, Eq, Structural, Debug)]
pub enum TickEvent {
    Fired,
    ShutdownChanged(bool),
    Closed,
}

/// Whether a loop keeps going after handling one event.
#[derive(Clone, Copy, PartialEq, Eq, Structural, Debug)]
pub enum LoopFlow {
    Continue,
    Exit,
}

/// The effect of one tick-loop wake-up on the model, and whether the loop
/// goes on.
pub open spec fn spec_tick_step(m: Pomodoro, event: TickEvent) -> (Pomodoro, LoopFlow) {
    match event {
        TickEvent::Fired => (spec_tick(m), LoopFlow::Continue),
        TickEvent::ShutdownChanged(on) => (m, if on { LoopFlow::Exit } else { LoopFlow::Continue }),
        TickEvent::Closed => (m, LoopFlow::Exit),
    }
}

/// Handle one wake-up of the tick loop (called with the lock held). The
/// timer firing advances the countdown by one second, if it is running; a
/// true shutdown broadcast, or a closed broadcast channel, ends the loop
/// without touching the model; a false broadcast value is ignored.
pub fn tick_loop_step(model: &mut Pomodoro, event: TickEvent) -> (flow: LoopFlow)
    ensures
        (*final(model), flow) == spec_tick_step(*old(model), event),
        event == TickEvent::Fired ==> flow == LoopFlow::Continue
            && *final(model) == spec_tick(*old(model)),
        event == TickEvent::ShutdownChanged(true) ==> flow == LoopFlow::Exit
            && *final(model) == *old(model),
        event == TickEvent::ShutdownChanged(false) ==> flow == LoopFlow::Continue
            && *final(model) == *old(model),
        event == TickEvent::Closed ==> flow == LoopFlow::Exit && *final(model) == *old(model),
    {
    match event {
        TickEvent::Fired => {
            if model.state == TimerState::Running {
                model.tick();
            }
            LoopFlow::Continue
        },
        TickEvent::ShutdownChanged(on) => {
            if on {
                LoopFlow::Exit
            } else {
                LoopFlow::Continue
            }
        },
        TickEvent::Closed => LoopFlow::Exit,
    }
}

} // verus!
