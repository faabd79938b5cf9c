//! The event loop as a state machine.
//!
//! The shell performs one [`Effect`] at a time and reports what came of it as
//! an [`Event`]; [`step`] answers with the next state and the next effect. The
//! machine never touches the terminal, a file or a process itself.

use vstd::prelude::*;
use crate::keys::{bound_action, action_for_key, Action, Side};

verus! {

/// Who owns the terminal.
#[derive(Clone, Copy, Debug, PartialEq, Eq, Structural)]
pub enum Mode {
    /// The program owns the display: raw input, alternate screen.
    Interactive,
    /// The terminal is in its ordinary mode, as an external process needs it.
    Suspended,
}

/// An external program that the bridge can run.
#[derive(Clone, Copy, Debug, PartialEq, Eq, Structural)]
pub enum External {
    /// The user's editor, on one buffer.
    Editor(Side),
    /// The diff viewer, on both buffers.
    Diff,
}

/// A fatal error, by the step that failed.
#[derive(Clone, Copy, Debug, PartialEq, Eq, Structural)]
pub enum Failure {
    /// Scratch storage or the interactive terminal could not be set up.
    Setup,
    /// A frame could not be drawn.
    Draw,
    /// The next input event could not be read.
    Input,
    /// The terminal could not be handed over.
    Suspend,
    /// The external process could not be started.
    Spawn,
    /// The terminal could not be taken back.
    Resume,
}

/// Why the loop ended.
#[derive(Clone, Copy, Debug, PartialEq, Eq, Structural)]
pub enum Outcome {
    /// The user asked to quit.
    Quit,
    /// A fatal error ended the loop.
    Failed(Failure),
}

/// Where the loop stands. Each state waits for the result of one effect,
/// given by [`pending`].
#[derive(Clone, Copy, Debug, PartialEq, Eq, Structural)]
pub enum State {
    /// Top of an iteration: the frame is drawn from the buffers on disk.
    Drawing,
    /// Blocked on one input event.
    Reading,
    /// Handing the terminal over before `External` runs.
    Suspending(External),
    /// The external process runs; the loop waits for it to exit.
    Launched(External),
    /// Taking the terminal back. `started` tells whether the process ran.
    Resuming { started: bool },
    /// Forcing a full redraw after the terminal came back.
    Redrawing,
    /// Emptying one buffer.
    Truncating(Side),
    /// Telling the user that a buffer could not be emptied.
    Reporting(Side),
    /// The loop is over; `mode` is the mode the terminal was left in.
    Stopped { outcome: Outcome, mode: Mode },
}

/// What the shell is asked to do.
#[derive(Clone, Copy, Debug, PartialEq, Eq, Structural)]
pub enum Effect {
    /// Read both buffers and draw the frame.
    Draw,
    /// Block until one input event arrives.
    Read,
    /// Leave the alternate screen and raw mode.
    Suspend,
    /// Start the external program and wait until it exits.
    Run(External),
    /// Enter raw mode and the alternate screen again.
    Resume,
    /// Clear the screen and draw the frame anew.
    Redraw,
    /// Truncate one buffer to zero length.
    Truncate(Side),
    /// Report that one buffer could not be truncated.
    Report(Side),
    /// Leave the loop.
    Stop(Outcome),
}

/// What came of the effect that was pending.
#[derive(Clone, Copy, Debug, PartialEq, Eq, Structural)]
pub enum Event {
    /// The effect was carried out. For `Run`: the process exited, with any
    /// status.
    Done,
    /// The effect failed. For `Run`: the process could not be started.
    Failed,
    /// `Read` delivered a character key.
    Key(char),
    /// `Read` delivered input that is not a character key.
    Other,
}

/// The effect a state waits for.
pub open spec fn pending(state: State) -> Effect {
    match state {
        State::Drawing => Effect::Draw,
        State::Reading => Effect::Read,
        State::Suspending(_) => Effect::Suspend,
        State::Launched(target) => Effect::Run(target),
        State::Resuming { .. } => Effect::Resume,
        State::Redrawing => Effect::Redraw,
        State::Truncating(side) => Effect::Truncate(side),
        State::Reporting(side) => Effect::Report(side),
        State::Stopped { outcome, .. } => Effect::Stop(outcome),
    }
}

/// The terminal mode that holds in a state.
pub open spec fn mode_of(state: State) -> Mode {
    match state {
        State::Launched(_) => Mode::Suspended,
        State::Resuming { .. } => Mode::Suspended,
        State::Stopped { mode, .. } => mode,
        _ => Mode::Interactive,
    }
}

/// The state that an action leads to from `Reading`.
pub open spec fn dispatched(action: Action) -> State {
    match action {
        Action::Quit => State::Stopped { outcome: Outcome::Quit, mode: Mode::Interactive },
        Action::Edit(side) => State::Suspending(External::Editor(side)),
        Action::Clear => State::Truncating(Side::Left),
        Action::Diff => State::Suspending(External::Diff),
        Action::Ignore => State::Drawing,
    }
}

/// A loop that ended with a fatal error, in the given terminal mode.
pub open spec fn failed(failure: Failure, mode: Mode) -> State {
    State::Stopped { outcome: Outcome::Failed(failure), mode }
}

/// The transition relation, as a function.
///
/// An event other than `Failed` counts as success of the pending effect, so
/// the function is total. A buffer that cannot be truncated is reported and
/// the loop goes on; every other failure ends it. When the external process
/// cannot be started the terminal is still taken back before the loop ends.
pub open spec fn next_state(state: State, event: Event) -> State {
    match state {
        State::Drawing => match event {
            Event::Failed => failed(Failure::Draw, Mode::Interactive),
            _ => State::Reading,
        },
        State::Reading => match event {
            Event::Failed => failed(Failure::Input, Mode::Interactive),
            Event::Key(key) => dispatched(bound_action(key)),
            _ => State::Drawing,
        },
        State::Suspending(target) => match event {
            Event::Failed => failed(Failure::Suspend, Mode::Interactive),
            _ => State::Launched(target),
        },
        State::Launched(_) => State::Resuming { started: event != Event::Failed },
        State::Resuming { started } => match event {
            Event::Failed => failed(Failure::Resume, Mode::Suspended),
            _ => if started {
                State::Redrawing
            } else {
                failed(Failure::Spawn, Mode::Interactive)
            },
        },
        State::Redrawing => match event {
            Event::Failed => failed(Failure::Draw, Mode::Interactive),
            _ => State::Drawing,
        },
        State::Truncating(side) => match event {
            Event::Failed => State::Reporting(side),
            _ => match side {
                Side::Left => State::Truncating(Side::Right),
                Side::Right => State::Drawing,
            },
        },
        State::Reporting(_) => State::Drawing,
        State::Stopped { .. } => state,
    }
}

/// The state after a whole sequence of events, first event first.
pub open spec fn run(state: State, events: Seq<Event>) -> State
    decreases events.len(),
{
    if events.len() == 0 {
        state
    } else {
        next_state(run(state, events.drop_last()), events.last())
    }
}

impl State {
    /// The state in which the loop starts: drawing the first frame when the
    /// terminal and the scratch storage were set up, stopped when they were not.
    pub fn start(setup_succeeded: bool) -> (state: State)
        ensures
            state == if setup_succeeded {
                State::Drawing
            } else {
                failed(Failure::Setup, Mode::Suspended)
            },
    {
        if setup_succeeded {
            State::Drawing
        } else {
            State::Stopped { outcome: Outcome::Failed(Failure::Setup), mode: Mode::Suspended }
        }
    }

    /// The effect this state waits for.
    pub fn effect(&self) -> (effect: Effect)
        ensures
            effect == pending(*self),
    {
        match *self {
            State::Drawing => Effect::Draw,
            State::Reading => Effect::Read,
            State::Suspending(_) => Effect::Suspend,
            State::Launched(target) => Effect::Run(target),
            State::Resuming { .. } => Effect::Resume,
            State::Redrawing => Effect::Redraw,
            State::Truncating(side) => Effect::Truncate(side),
            State::Reporting(side) => Effect::Report(side),
            State::Stopped { outcome, .. } => Effect::Stop(outcome),
        }
    }

    /// The terminal mode that holds in this state.
    pub fn mode(&self) -> (mode: Mode)
        ensures
            mode == mode_of(*self),
    {
        match *self {
            State::Launched(_) => Mode::Suspended,
            State::Resuming { .. } => Mode::Suspended,
            State::Stopped { mode, .. } => mode,
            _ => Mode::Interactive,
        }
    }

    /// The outcome of the loop, once it has stopped.
    pub fn outcome(&self) -> (outcome: Option<Outcome>)
        ensures
            outcome == match *self {
                State::Stopped { outcome, .. } => Some(outcome),
                _ => None,
            },
    {
        match *self {
            State::Stopped { outcome, .. } => Some(outcome),
            _ => None,
        }
    }
}

/// Advances the loop by one event and names the effect to perform next.
pub fn step(state: State, event: Event) -> (next: (State, Effect))
    ensures
        next.0 == next_state(state, event),
        next.1 == pending(next.0),
{
    let failed = match event {
        Event::Failed => true,
        _ => false,
    };
    let next = match state {
        State::Drawing => if failed {
            stopped(Failure::Draw, Mode::Interactive)
        } else {
            State::Reading
        },
        State::Reading => match event {
            Event::Failed => stopped(Failure::Input, Mode::Interactive),
            Event::Key(key) => dispatch(action_for_key(key)),
            _ => State::Drawing,
        },
        State::Suspending(target) => if failed {
            stopped(Failure::Suspend, Mode::Interactive)
        } else {
            State::Launched(target)
        },
        State::Launched(_) => State::Resuming { started: !failed },
        State::Resuming { started } => if failed {
            stopped(Failure::Resume, Mode::Suspended)
        } else if started {
            State::Redrawing
        } else {
            stopped(Failure::Spawn, Mode::Interactive)
        },
        State::Redrawing => if failed {
            stopped(Failure::Draw, Mode::Interactive)
        } else {
            State::Drawing
        },
        State::Truncating(side) => if failed {
            State::Reporting(side)
        } else {
            match side {
                Side::Left => State::Truncating(Side::Right),
                Side::Right => State::Drawing,
            }
        },
        State::Reporting(_) => State::Drawing,
        State::Stopped { .. } => state,
    };
    (next, next.effect())
}

/// The state that a key's action leads to from `Reading`.
pub fn dispatch(action: Action) -> (state: State)
    ensures
        state == dispatched(action),
{
    match action {
        Action::Quit => State::Stopped { outcome: Outcome::Quit, mode: Mode::Interactive },
        Action::Edit(side) => State::Suspending(External::Editor(side)),
        Action::Clear => State::Truncating(Side::Left),
        Action::Diff => State::Suspending(External::Diff),
        Action::Ignore => State::Drawing,
    }
}

fn stopped(failure: Failure, mode: Mode) -> (state: State)
    ensures
        state == failed(failure, mode),
{
    State::Stopped { outcome: Outcome::Failed(failure), mode }
}

/// The exit code of the process: zero exactly when the user quit and the
/// terminal was restored on the way out, one otherwise.
pub open spec fn exit_status(outcome: Outcome, restored: bool) -> u8 {
    if outcome == Outcome::Quit && restored {
        0
    } else {
        1
    }
}

/// Computes the exit code of the process from the outcome of the loop and
/// from whether the terminal could be restored afterwards.
pub fn exit_code(outcome: Outcome, restored: bool) -> (code: u8)
    ensures
        code == exit_status(outcome, restored),
{
    match outcome {
        Outcome::Quit => if restored { 0 } else { 1 },
        Outcome::Failed(_) => 1,
    }
}

} // verus!
