//! The timer model: remaining seconds plus a run state, and the four
//! operations that are the only way to change it.

use vstd::prelude::*;

verus! {

/// Run state of the timer. `Stopped` is the only initial state; the only way
/// back to it is `reset`.
#[derive(Clone, Copy, PartialEq, Eq, Structural, Debug)]
pub enum TimerState {
    Running,
    Paused,
    Stopped,
}

/// The single shared piece of timer state: the seconds left in the current
/// countdown and the run state. `remaining` can never go negative: it is
/// unsigned and `tick` refuses to underflow it.
#[derive(Clone, Copy, PartialEq, Eq, Structural, Debug)]
pub struct Pomodoro {
    /// Seconds left in the current countdown.
    pub remaining: u64,
    /// Whether the countdown is advancing.
    pub state: TimerState,
}

/// What one `tick` does: one second off while running and time is left,
/// otherwise nothing.
pub open spec fn spec_tick(m: Pomodoro) -> Pomodoro {
    if m.state == TimerState::Running && m.remaining > 0 {
        Pomodoro { remaining: (m.remaining - 1) as u64, state: m.state }
    } else {
        m
    }
}

/// What one `toggle` does: `Running` and `Paused` swap; `Stopped` starts
/// running. No transition leads to `Stopped`.
pub open spec fn spec_toggle(m: Pomodoro) -> Pomodoro {
    Pomodoro {
        remaining: m.remaining,
        state: match m.state {
            TimerState::Running => TimerState::Paused,
            TimerState::Paused => TimerState::Running,
            TimerState::Stopped => TimerState::Running,
        },
    }
}

/// What `reset` does: a fresh stopped countdown of the given length,
/// whatever came before.
pub open spec fn spec_reset(m: Pomodoro, minutes: u64) -> Pomodoro {
    Pomodoro { remaining: (minutes * 60) as u64, state: TimerState::Stopped }
}

impl Pomodoro {
    /// A fresh timer: the given number of minutes on the clock, not yet
    /// running.
    pub fn new(minutes: u64) -> (p: Pomodoro)
        requires
            minutes * 60 <= u64::MAX,
        ensures
            p.remaining == minutes * 60,
            p.state == TimerState::Stopped,
    {
        Pomodoro { remaining: minutes * 60, state: TimerState::Stopped }
    }

    /// Discard whatever countdown was in progress and start over, stopped,
    /// with the given number of minutes.
    pub fn reset(&mut self, minutes: u64)
        requires
            minutes * 60 <= u64::MAX,
        ensures
            *final(self) == spec_reset(*old(self), minutes),
            final(self).remaining == minutes * 60,
            final(self).state == TimerState::Stopped,
    {
        self.remaining = minutes * 60;
        self.state = TimerState::Stopped;
    }

    /// Advance the countdown by one second. Only a running timer with time
    /// left changes; a stopped or paused timer, or one already at zero, is
    /// untouched — in particular `remaining` never underflows.
    pub fn tick(&mut self)
        ensures
            *final(self) == spec_tick(*old(self)),
            old(self).state == TimerState::Running && old(self).remaining > 0 ==> {
                &&& final(self).remaining == old(self).remaining - 1
                &&& final(self).state == old(self).state
            },
            old(self).state != TimerState::Running || old(self).remaining == 0 ==>
                *final(self) == *old(self),
    {
        if self.state == TimerState::Running && self.remaining > 0 {
            self.remaining = self.remaining - 1;
        }
    }

    /// Swap between running and paused; start a stopped timer. The remaining
    /// time is untouched, and the result is never `Stopped`.
    pub fn toggle(&mut self)
        ensures
            *final(self) == spec_toggle(*old(self)),
            final(self).remaining == old(self).remaining,
            final(self).state != TimerState::Stopped,
            old(self).state == TimerState::Running ==> final(self).state == TimerState::Paused,
            old(self).state == TimerState::Paused ==> final(self).state == TimerState::Running,
            old(self).state == TimerState::Stopped ==> final(self).state == TimerState::Running,
    {
        self.state = match self.state {
            TimerState::Running => TimerState::Paused,
            TimerState::Paused => TimerState::Running,
            TimerState::Stopped => TimerState::Running,
        };
    }
}

/// One serialized mutation of the shared timer. The lock around the shared
/// `Pomodoro` serializes every concurrent `tick`, `toggle` and `reset`, so an
/// arbitrary interleaving of the three loops is exactly some sequence of
/// these operations applied one after the other.
#[derive(Clone, Copy, PartialEq, Eq, Structural, Debug)]
pub enum TimerOp {
    Tick,
    Toggle,
    Reset(u64),
}

/// The effect of one serialized operation on the model.
pub open spec fn apply_op(m: Pomodoro, op: TimerOp) -> Pomodoro {
    match op {
        TimerOp::Tick => spec_tick(m),
        TimerOp::Toggle => spec_toggle(m),
        TimerOp::Reset(minutes) => spec_reset(m, minutes),
    }
}

/// The effect of a whole history of serialized operations, oldest first.
pub open spec fn apply_ops(m: Pomodoro, ops: Seq<TimerOp>) -> Pomodoro
    decreases ops.len(),
{
    if ops.len() == 0 {
        m
    } else {
        apply_op(apply_ops(m, ops.drop_last()), ops.last())
    }
}

/// A sound timer value: the run state is one of the three declared states
/// and the remaining time is not negative.
pub open spec fn is_valid(m: Pomodoro) -> bool {
    &&& (m.state == TimerState::Running || m.state == TimerState::Paused
        || m.state == TimerState::Stopped)
    &&& m.remaining >= 0
}

/// Law: any number of concurrent `tick`/`toggle`/`reset` calls against one
/// shared model, interleaved arbitrarily (hence, under the lock, applied in
/// some serial order), leave the model valid — the remaining time is never
/// negative and the state is always one of the three declared states.
pub proof fn lemma_ops_preserve_validity(m: Pomodoro, ops: Seq<TimerOp>)
    requires
        is_valid(m),
    ensures
        is_valid(apply_ops(m, ops)),
    decreases ops.len(),
{
    if ops.len() > 0 {
        lemma_ops_preserve_validity(m, ops.drop_last());
    }
}

/// The model after `n` consecutive `toggle` calls.
pub open spec fn apply_toggles(m: Pomodoro, n: nat) -> Pomodoro
    decreases n,
{
    if n == 0 {
        m
    } else {
        spec_toggle(apply_toggles(m, (n - 1) as nat))
    }
}

/// Law: starting from `Stopped`, a sequence of `toggle` calls visits
/// `Running`, `Paused`, `Running`, `Paused`, … — odd counts leave the timer
/// running, even counts (past the first call) leave it paused, and no count
/// of toggles ever reaches `Stopped` again. The remaining time never moves.
pub proof fn lemma_toggle_alternation(m: Pomodoro, n: nat)
    requires
        m.state == TimerState::Stopped,
    ensures
        n >= 1 ==> apply_toggles(m, n).state != TimerState::Stopped,
        n >= 1 && n % 2 == 1 ==> apply_toggles(m, n).state == TimerState::Running,
        n >= 1 && n % 2 == 0 ==> apply_toggles(m, n).state == TimerState::Paused,
        apply_toggles(m, n).remaining == m.remaining,
    decreases n,
{
    if n >= 1 {
        lemma_toggle_alternation(m, (n - 1) as nat);
    }
}

/// Law: `reset` is idempotent — resetting twice in a row to the same length
/// yields exactly the observable state of resetting once.
pub proof fn lemma_reset_idempotent(m: Pomodoro, minutes: u64)
    ensures
        spec_reset(spec_reset(m, minutes), minutes) == spec_reset(m, minutes),
{
}

} // verus!
