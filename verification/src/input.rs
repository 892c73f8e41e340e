//! Decision logic of the input activity: mapping key events to commands, and
//! commands to model mutations or a quit request. The polling for events and
//! the delivery of the completion notice are I/O and live outside the crate.

use vstd::prelude::*;

use crate::app::Pomodoro;
use crate::app::spec_reset;
use crate::app::spec_toggle;

verus! {

/// The length, in minutes, of the standard session that the reset command
/// starts over with.
pub const DEFAULT_MINUTES: u64 = 25;

/// What a key event asks for. Anything but the three bound keys — and any
/// event that is not a press — is `Ignore`.
#[derive(Clone, Copy, PartialEq, Eq, Structural, Debug)]
pub enum Command {
    Quit,
    Toggle,
    Reset,
    Ignore,
}

/// What the input activity does next: keep polling, or deliver the one-shot
/// completion notice and stop.
#[derive(Clone, Copy, PartialEq, Eq, Structural, Debug)]
pub enum InputStep {
    Continue,
    QuitRequested,
}

/// The key bindings: only press events act; `q` quits, `s` toggles, `r`
/// resets; every other key is inert.
pub open spec fn spec_classify(is_press: bool, key: char) -> Command {
    if !is_press {
        Command::Ignore
    } else if key == 'q' {
        Command::Quit
    } else if key == 's' {
        Command::Toggle
    } else if key == 'r' {
        Command::Reset
    } else {
        Command::Ignore
    }
}

/// Translate one character key event into a command. Release and repeat
/// events (`is_press == false`) are never actionable.
pub fn classify_key(is_press: bool, key: char) -> (c: Command)
    ensures
        c == spec_classify(is_press, key),
{
    if !is_press {
        Command::Ignore
    } else if key == 'q' {
        Command::Quit
    } else if key == 's' {
        Command::Toggle
    } else if key == 'r' {
        Command::Reset
    } else {
        Command::Ignore
    }
}

/// The effect of one command on the model, and whether the loop goes on.
pub open spec fn spec_input_step(m: Pomodoro, cmd: Command) -> (Pomodoro, InputStep) {
    match cmd {
        Command::Quit => (m, InputStep::QuitRequested),
        Command::Toggle => (spec_toggle(m), InputStep::Continue),
        Command::Reset => (spec_reset(m, DEFAULT_MINUTES), InputStep::Continue),
        Command::Ignore => (m, InputStep::Continue),
    }
}

/// Apply one command to the shared model (called with the lock held). Quit
/// leaves the model untouched and asks the caller to deliver the completion
/// notice exactly once and stop; toggle and reset mutate the model and keep
/// the loop going; anything else is a no-op.
pub fn apply_command(model: &mut Pomodoro, cmd: Command) -> (step: InputStep)
    ensures
        (*final(model), step) == spec_input_step(*old(model), cmd),
        cmd == Command::Quit ==> step == InputStep::QuitRequested && *final(model) == *old(model),
        cmd == Command::Toggle ==> step == InputStep::Continue
            && *final(model) == spec_toggle(*old(model)),
        cmd == Command::Reset ==> step == InputStep::Continue
            && *final(model) == spec_reset(*old(model), DEFAULT_MINUTES),
        cmd == Command::Ignore ==> step == InputStep::Continue && *final(model) == *old(model),
    {
    match cmd {
        Command::Quit => InputStep::QuitRequested,
        Command::Toggle => {
            model.toggle();
            InputStep::Continue
        },
        Command::Reset => {
            model.reset(DEFAULT_MINUTES);
            InputStep::Continue
        },
        Command::Ignore => InputStep::Continue,
    }
}

} // verus!
