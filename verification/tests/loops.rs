use pomodoro::app::Pomodoro;
use pomodoro::app::TimerState;
use pomodoro::input::apply_command;
use pomodoro::input::classify_key;
use pomodoro::input::Command;
use pomodoro::input::InputStep;
use pomodoro::input::DEFAULT_MINUTES;
use pomodoro::lifecycle::render_loop_decision;
use pomodoro::lifecycle::NoticeStatus;
use pomodoro::lifecycle::RenderStep;
use pomodoro::lifecycle::SysEvent;
use pomodoro::lifecycle::System;
use pomodoro::timer::tick_loop_step;
use pomodoro::timer::LoopFlow;
use pomodoro::timer::TickEvent;

#[test]
fn classify_key_bindings() {
    assert_eq!(classify_key(true, 'q'), Command::Quit);
    assert_eq!(classify_key(true, 's'), Command::Toggle);
    assert_eq!(classify_key(true, 'r'), Command::Reset);
    assert_eq!(classify_key(true, 'x'), Command::Ignore);
    assert_eq!(classify_key(true, ' '), Command::Ignore);
}

#[test]
fn classify_key_ignores_releases() {
    assert_eq!(classify_key(false, 'q'), Command::Ignore);
    assert_eq!(classify_key(false, 's'), Command::Ignore);
    assert_eq!(classify_key(false, 'r'), Command::Ignore);
}

#[test]
fn apply_command_toggle_and_reset() {
    let mut p = Pomodoro::new(25);
    assert_eq!(apply_command(&mut p, Command::Toggle), InputStep::Continue);
    assert_eq!(p.state, TimerState::Running);
    assert_eq!(apply_command(&mut p, Command::Ignore), InputStep::Continue);
    assert_eq!(p.state, TimerState::Running);
    let mut q = Pomodoro::new(1);
    q.toggle();
    q.tick();
    assert_eq!(apply_command(&mut q, Command::Reset), InputStep::Continue);
    assert_eq!(q.remaining, DEFAULT_MINUTES * 60);
    assert_eq!(q.state, TimerState::Stopped);
}

#[test]
fn apply_command_quit_requests_shutdown_only() {
    let mut p = Pomodoro::new(25);
    p.toggle();
    let before = p;
    assert_eq!(apply_command(&mut p, Command::Quit), InputStep::QuitRequested);
    assert_eq!(p, before);
}

#[test]
fn tick_loop_step_events() {
    let mut p = Pomodoro::new(25);
    p.toggle();
    assert_eq!(tick_loop_step(&mut p, TickEvent::Fired), LoopFlow::Continue);
    assert_eq!(p.remaining, 1499);

    let before = p;
    assert_eq!(
        tick_loop_step(&mut p, TickEvent::ShutdownChanged(false)),
        LoopFlow::Continue
    );
    assert_eq!(p, before);
    assert_eq!(
        tick_loop_step(&mut p, TickEvent::ShutdownChanged(true)),
        LoopFlow::Exit
    );
    assert_eq!(p, before);
    assert_eq!(tick_loop_step(&mut p, TickEvent::Closed), LoopFlow::Exit);
    assert_eq!(p, before);
}

#[test]
fn tick_loop_step_leaves_stopped_model_alone() {
    let mut p = Pomodoro::new(25);
    assert_eq!(tick_loop_step(&mut p, TickEvent::Fired), LoopFlow::Continue);
    assert_eq!(p.remaining, 1500);
}

#[test]
fn render_decision_table() {
    assert_eq!(
        render_loop_decision(true, NoticeStatus::Received),
        RenderStep::BroadcastAndExit
    );
    assert_eq!(
        render_loop_decision(true, NoticeStatus::Empty),
        RenderStep::Continue
    );
    // A closed notice channel is an implicit shutdown request: broadcast
    // before leaving, or the tick loop would never stop and the join after
    // the loop would never return.
    assert_eq!(
        render_loop_decision(true, NoticeStatus::Closed),
        RenderStep::BroadcastAndExit
    );
}

#[test]
fn render_decision_repaint_failure_is_fatal() {
    // A failed repaint ends the run whatever the notice poll would have
    // said, and still broadcasts so the join can return to the teardown.
    assert_eq!(
        render_loop_decision(false, NoticeStatus::Empty),
        RenderStep::BroadcastAndExit
    );
    assert_eq!(
        render_loop_decision(false, NoticeStatus::Received),
        RenderStep::BroadcastAndExit
    );
    assert_eq!(
        render_loop_decision(false, NoticeStatus::Closed),
        RenderStep::BroadcastAndExit
    );
}

#[test]
fn quit_shuts_the_whole_system_down() {
    let mut s = System::init(Pomodoro::new(25));
    assert!(s.tick_active && s.input_active && s.render_active && !s.done);

    // A little ordinary traffic first.
    s.advance(SysEvent::Input(Command::Toggle));
    s.advance(SysEvent::Tick(TickEvent::Fired));
    s.advance(SysEvent::Render);
    assert_eq!(s.model.remaining, 1499);

    // The quit command travels: notice, broadcast, tick exit, join.
    s.advance(SysEvent::Input(Command::Quit));
    assert!(!s.input_active && s.notice);
    s.advance(SysEvent::Join);
    assert!(!s.done, "join must wait for every activity");
    s.advance(SysEvent::Render);
    assert!(!s.render_active && s.shutdown);
    s.advance(SysEvent::Tick(TickEvent::ShutdownChanged(true)));
    assert!(!s.tick_active);
    s.advance(SysEvent::Join);
    assert!(s.done);

    // After completion nothing moves: no repaint, no tick, no revival.
    let frozen = s;
    s.advance(SysEvent::Render);
    s.advance(SysEvent::Tick(TickEvent::Fired));
    s.advance(SysEvent::Input(Command::Toggle));
    s.advance(SysEvent::Join);
    assert_eq!(s, frozen);
}

#[test]
fn input_failure_still_shuts_the_system_down() {
    // The input activity dies of an error without posting the notice; the
    // render loop finds the channel closed, broadcasts, and the run still
    // winds down to a clean completion.
    let mut s = System::init(Pomodoro::new(25));
    s.advance(SysEvent::InputFailed);
    assert!(!s.input_active && !s.notice);
    s.advance(SysEvent::Render);
    assert!(!s.render_active && s.shutdown);
    s.advance(SysEvent::Tick(TickEvent::ShutdownChanged(true)));
    assert!(!s.tick_active);
    s.advance(SysEvent::Join);
    assert!(s.done);
    assert_eq!(s.model.remaining, 1500);
}

#[test]
fn closed_broadcast_is_an_implicit_shutdown() {
    let mut s = System::init(Pomodoro::new(25));
    s.advance(SysEvent::Tick(TickEvent::Closed));
    assert!(!s.tick_active);
    assert_eq!(s.model.remaining, 1500);
}
