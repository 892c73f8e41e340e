//! The run lifecycle: the render loop's per-iteration decision, and a model
//! of the whole three-activity system that pins down the shutdown protocol —
//! whether through the quit command or through a dying input activity, the
//! shutdown broadcast reaches every loop, every activity stops and stays
//! stopped, and no repaint can happen after the run reports completion.

use vstd::prelude::*;

use crate::app::Pomodoro;
use crate::app::spec_tick;
use crate::input::Command;
use crate::input::InputStep;
use crate::input::spec_input_step;
use crate::timer::LoopFlow;
use crate::timer::TickEvent;
use crate::timer::spec_tick_step;

verus! {

/// What the render loop's non-blocking poll of the completion notice found:
/// the notice itself, nothing yet, or a closed channel (the input activity is
/// gone without asking to quit).
#[derive(Clone, Copy, PartialEq, Eq, Structural, Debug)]
pub enum NoticeStatus {
    Received,
    Empty,
    Closed,
}

/// What the render loop does next: keep repainting, or broadcast shutdown
/// and leave the loop. There is no way out without the broadcast: the tick
/// loop waits for it, and the join after the loop waits for the tick loop.
#[derive(Clone, Copy, PartialEq, Eq, Structural, Debug)]
pub enum RenderStep {
    Continue,
    BroadcastAndExit,
}

/// The render loop's decision table over one iteration's two outcomes: did
/// the repaint succeed, and what did the notice poll find. A failed repaint
/// is fatal to the run; a closed notice channel (the input activity is gone
/// without asking to quit) is an implicit, non-error shutdown request. Both
/// end the loop the same way the notice itself does: broadcast, then exit,
/// so the tick loop stops and the join can return to the teardown.
pub open spec fn spec_render_decision(repaint_ok: bool, notice: NoticeStatus) -> RenderStep {
    if !repaint_ok {
        RenderStep::BroadcastAndExit
    } else {
        match notice {
            NoticeStatus::Received => RenderStep::BroadcastAndExit,
            NoticeStatus::Empty => RenderStep::Continue,
            NoticeStatus::Closed => RenderStep::BroadcastAndExit,
        }
    }
}

/// Decide one render-loop iteration: on a failed repaint, on the completion
/// notice, or on a closed notice channel, broadcast shutdown and stop
/// repainting; only an empty channel after a successful repaint goes on.
pub fn render_loop_decision(repaint_ok: bool, notice: NoticeStatus) -> (step: RenderStep)
    ensures
        step == spec_render_decision(repaint_ok, notice),
{
    if !repaint_ok {
        RenderStep::BroadcastAndExit
    } else {
        match notice {
            NoticeStatus::Received => RenderStep::BroadcastAndExit,
            NoticeStatus::Empty => RenderStep::Continue,
            NoticeStatus::Closed => RenderStep::BroadcastAndExit,
        }
    }
}

/// The whole system as the orchestrator sees it: the shared model, the two
/// signals, which activities are still running, and whether the run has
/// reported completion. The lock serializes every model access, so one
/// `SysEvent` at a time is exactly the concurrency the real program has.
#[derive(Clone, Copy, PartialEq, Eq, Structural, Debug)]
pub struct System {
    /// The shared timer model (behind the lock in the real program).
    pub model: Pomodoro,
    /// The shutdown broadcast: single writer (the render loop), read by the
    /// tick loop; only ever moves from false to true.
    pub shutdown: bool,
    /// The one-shot completion notice: written once by the input activity on
    /// quit, consumed once by the render loop.
    pub notice: bool,
    /// The tick activity is still looping.
    pub tick_active: bool,
    /// The input activity is still polling.
    pub input_active: bool,
    /// The render loop is still repainting.
    pub render_active: bool,
    /// The orchestrator has joined both background activities and reported
    /// completion.
    pub done: bool,
}

/// One scheduling step: which activity ran, and on what.
#[derive(Clone, Copy, PartialEq, Eq, Structural, Debug)]
pub enum SysEvent {
    /// The tick loop woke on one of its two events.
    Tick(TickEvent),
    /// The input loop classified one key event into a command.
    Input(Command),
    /// The input loop died of an error (a poisoned lock, a failed poll)
    /// without posting the notice; its end closes the notice channel.
    InputFailed,
    /// The render loop's interval elapsed: repaint, then poll the notice.
    Render,
    /// The orchestrator joins both background activities and reports
    /// completion; it can only run once both have stopped.
    Join,
}

/// The system at startup: a fresh model, no signals, all three activities
/// running.
pub open spec fn spec_sys_init(m: Pomodoro) -> System {
    System {
        model: m,
        shutdown: false,
        notice: false,
        tick_active: true,
        input_active: true,
        render_active: true,
        done: false,
    }
}

/// One step of the system. An event for an activity that has already stopped
/// changes nothing (a stopped loop runs no more code); `Join` waits for both
/// background activities and the render loop itself to have stopped. The
/// tick loop can only observe the broadcast value the system actually holds.
pub open spec fn spec_sys_step(s: System, ev: SysEvent) -> System {
    match ev {
        SysEvent::Tick(t) => {
            if s.tick_active && (t matches TickEvent::ShutdownChanged(on) ==> on == s.shutdown) {
                let (m, flow) = spec_tick_step(s.model, t);
                System { model: m, tick_active: flow == LoopFlow::Continue, ..s }
            } else {
                s
            }
        },
        SysEvent::Input(c) => {
            if s.input_active {
                let (m, step) = spec_input_step(s.model, c);
                if step == InputStep::QuitRequested {
                    System { model: m, input_active: false, notice: true, ..s }
                } else {
                    System { model: m, ..s }
                }
            } else {
                s
            }
        },
        SysEvent::InputFailed => {
            if s.input_active {
                System { input_active: false, ..s }
            } else {
                s
            }
        },
        SysEvent::Render => {
            if s.render_active {
                if s.notice {
                    System { notice: false, shutdown: true, render_active: false, ..s }
                } else if !s.input_active {
                    // The notice channel is closed with nothing posted: an
                    // implicit shutdown request, handled like the notice.
                    System { shutdown: true, render_active: false, ..s }
                } else {
                    s
                }
            } else {
                s
            }
        },
        SysEvent::Join => {
            if !s.tick_active && !s.input_active && !s.render_active {
                System { done: true, ..s }
            } else {
                s
            }
        },
    }
}

/// The system after a whole schedule of steps, oldest first.
pub open spec fn spec_sys_run(s: System, evs: Seq<SysEvent>) -> System
    decreases evs.len(),
{
    if evs.len() == 0 {
        s
    } else {
        spec_sys_step(spec_sys_run(s, evs.drop_last()), evs.last())
    }
}

/// A repaint happens exactly when the render loop's interval elapses while
/// it is still active.
pub open spec fn spec_repaints(s: System, ev: SysEvent) -> bool {
    ev == SysEvent::Render && s.render_active
}

/// The safety invariant of the shutdown protocol: completion is only ever
/// reported with every activity stopped.
pub open spec fn sys_inv(s: System) -> bool {
    s.done ==> !s.tick_active && !s.input_active && !s.render_active
}

/// Law (one step): shutdown is one-directional. A stopped activity never
/// restarts, the broadcast never returns to false, completion is never
/// taken back, and the invariant — done only with everything stopped — is
/// preserved. In particular no repaint occurs after completion.
pub proof fn lemma_sys_step_monotone(s: System, ev: SysEvent)
    ensures
        sys_inv(s) ==> sys_inv(spec_sys_step(s, ev)),
        !s.tick_active ==> !spec_sys_step(s, ev).tick_active,
        !s.input_active ==> !spec_sys_step(s, ev).input_active,
        !s.render_active ==> !spec_sys_step(s, ev).render_active,
        s.shutdown ==> spec_sys_step(s, ev).shutdown,
        s.done ==> spec_sys_step(s, ev).done,
        sys_inv(s) && s.done ==> !spec_repaints(s, ev),
        sys_inv(s) && s.done ==> spec_sys_step(s, ev) == s,
{
}

/// Running a schedule extended by one step is one step after the schedule.
proof fn lemma_sys_run_push(s: System, evs: Seq<SysEvent>, ev: SysEvent)
    ensures
        spec_sys_run(s, evs.push(ev)) == spec_sys_step(spec_sys_run(s, evs), ev),
{
    assert(evs.push(ev).drop_last() =~= evs);
    assert(evs.push(ev).last() == ev);
}

/// Law (whole runs): under any schedule at all, the system never reports
/// completion while an activity still runs, and once it has reported
/// completion nothing more happens — no repaint, no tick, no state change.
pub proof fn lemma_shutdown_is_clean(s: System, evs: Seq<SysEvent>)
    requires
        sys_inv(s),
    ensures
        sys_inv(spec_sys_run(s, evs)),
        s.done ==> spec_sys_run(s, evs) == s,
    decreases evs.len(),
{
    if evs.len() > 0 {
        lemma_shutdown_is_clean(s, evs.drop_last());
        lemma_sys_step_monotone(spec_sys_run(s, evs.drop_last()), evs.last());
    }
}

/// Law (the quit path): from any live system, the quit command runs the
/// whole protocol to completion — the input activity stops and posts the
/// notice; the render loop, seeing it, broadcasts shutdown and stops
/// repainting; the tick loop, seeing the broadcast, stops; and only then can
/// the join report completion, with the model untouched along the way.
pub proof fn lemma_quit_stops_everything(s: System)
    requires
        s.tick_active,
        s.input_active,
        s.render_active,
        !s.done,
    ensures
        ({
            let quit = seq![
                SysEvent::Input(Command::Quit),
                SysEvent::Render,
                SysEvent::Tick(TickEvent::ShutdownChanged(true)),
                SysEvent::Join,
            ];
            let end = spec_sys_run(s, quit);
            &&& end.done
            &&& !end.tick_active
            &&& !end.input_active
            &&& !end.render_active
            &&& end.shutdown
            &&& end.model == s.model
        }),
{
    let quit = seq![
        SysEvent::Input(Command::Quit),
        SysEvent::Render,
        SysEvent::Tick(TickEvent::ShutdownChanged(true)),
        SysEvent::Join,
    ];
    let q0 = Seq::<SysEvent>::empty();
    let q1 = q0.push(SysEvent::Input(Command::Quit));
    let q2 = q1.push(SysEvent::Render);
    let q3 = q2.push(SysEvent::Tick(TickEvent::ShutdownChanged(true)));
    let q4 = q3.push(SysEvent::Join);
    assert(quit =~= q4);
    assert(spec_sys_run(s, q0) == s);
    lemma_sys_run_push(s, q0, SysEvent::Input(Command::Quit));
    lemma_sys_run_push(s, q1, SysEvent::Render);
    lemma_sys_run_push(s, q2, SysEvent::Tick(TickEvent::ShutdownChanged(true)));
    lemma_sys_run_push(s, q3, SysEvent::Join);
}

/// Law (the failure path): even when the input activity dies of an error
/// without posting the notice, the run still shuts down cleanly — the render
/// loop, finding the notice channel closed, broadcasts shutdown and stops
/// repainting; the tick loop, seeing the broadcast, stops; the join reports
/// completion, with the model untouched. Nothing hangs waiting for a notice
/// that can no longer come.
pub proof fn lemma_input_failure_still_stops_everything(s: System)
    requires
        s.tick_active,
        s.input_active,
        s.render_active,
        !s.notice,
        !s.done,
    ensures
        ({
            let fail = seq![
                SysEvent::InputFailed,
                SysEvent::Render,
                SysEvent::Tick(TickEvent::ShutdownChanged(true)),
                SysEvent::Join,
            ];
            let end = spec_sys_run(s, fail);
            &&& end.done
            &&& !end.tick_active
            &&& !end.input_active
            &&& !end.render_active
            &&& end.shutdown
            &&& end.model == s.model
        }),
{
    let fail = seq![
        SysEvent::InputFailed,
        SysEvent::Render,
        SysEvent::Tick(TickEvent::ShutdownChanged(true)),
        SysEvent::Join,
    ];
    let q0 = Seq::<SysEvent>::empty();
    let q1 = q0.push(SysEvent::InputFailed);
    let q2 = q1.push(SysEvent::Render);
    let q3 = q2.push(SysEvent::Tick(TickEvent::ShutdownChanged(true)));
    let q4 = q3.push(SysEvent::Join);
    assert(fail =~= q4);
    assert(spec_sys_run(s, q0) == s);
    lemma_sys_run_push(s, q0, SysEvent::InputFailed);
    lemma_sys_run_push(s, q1, SysEvent::Render);
    lemma_sys_run_push(s, q2, SysEvent::Tick(TickEvent::ShutdownChanged(true)));
    lemma_sys_run_push(s, q3, SysEvent::Join);
}

impl System {
    /// The system at startup, around a fresh model.
    pub fn init(m: Pomodoro) -> (s: System)
        ensures
            s == spec_sys_init(m),
    {
        System {
            model: m,
            shutdown: false,
            notice: false,
            tick_active: true,
            input_active: true,
            render_active: true,
            done: false,
        }
    }

    /// Run one scheduling step of the system model.
    pub fn advance(&mut self, ev: SysEvent)
        ensures
            *final(self) == spec_sys_step(*old(self), ev),
    {
        match ev {
            SysEvent::Tick(t) => {
                let consistent = match t {
                    TickEvent::ShutdownChanged(on) => on == self.shutdown,
                    _ => true,
                };
                if self.tick_active && consistent {
                    let flow = crate::timer::tick_loop_step(&mut self.model, t);
                    self.tick_active = flow == LoopFlow::Continue;
                }
            },
            SysEvent::Input(c) => {
                if self.input_active {
                    let step = crate::input::apply_command(&mut self.model, c);
                    if step == InputStep::QuitRequested {
                        self.input_active = false;
                        self.notice = true;
                    }
                }
            },
            SysEvent::InputFailed => {
                if self.input_active {
                    self.input_active = false;
                }
            },
            SysEvent::Render => {
                if self.render_active {
                    if self.notice {
                        self.notice = false;
                        self.shutdown = true;
                        self.render_active = false;
                    } else if !self.input_active {
                        self.shutdown = true;
                        self.render_active = false;
                    }
                }
            },
            SysEvent::Join => {
                if !self.tick_active && !self.input_active && !self.render_active {
                    self.done = true;
                }
            },
        }
    }
}

} // verus!
