//! What holds of every run of the event loop.

use vstd::prelude::*;
use crate::keys::{bound_action, Action, Side};
use crate::machine::{
    dispatched, exit_status, failed, mode_of, next_state, pending, run, Effect, Event, External, Failure, Mode,
    Outcome, State,
};

verus! {

/// The terminal mode after the effect pending in `state` ended with `event`:
/// a completed hand-over suspends, a completed take-back makes the terminal
/// interactive again, and anything else leaves the mode as it was.
pub open spec fn terminal_after(mode: Mode, state: State, event: Event) -> Mode {
    if event == Event::Failed {
        mode
    } else {
        match pending(state) {
            Effect::Suspend => Mode::Suspended,
            Effect::Resume => Mode::Interactive,
            _ => mode,
        }
    }
}

/// The terminal mode after a whole sequence of events, first event first.
pub open spec fn terminal_along(mode: Mode, state: State, events: Seq<Event>) -> Mode
    decreases events.len(),
{
    if events.len() == 0 {
        mode
    } else {
        terminal_after(
            terminal_along(mode, state, events.drop_last()),
            run(state, events.drop_last()),
            events.last(),
        )
    }
}

/// Whether an external process is running or about to be started.
pub open spec fn process_pending(state: State) -> bool {
    pending(state) is Run
}

/// One step moves the mode of the state exactly as the effect moved the
/// terminal.
pub proof fn step_tracks_terminal(state: State, event: Event)
    ensures
        mode_of(next_state(state, event)) == terminal_after(mode_of(state), state, event),
{
}

/// Along every sequence of events, from every state, the mode of the state is
/// the mode the terminal is in: the two never drift apart.
pub proof fn run_tracks_terminal(state: State, events: Seq<Event>)
    ensures
        mode_of(run(state, events)) == terminal_along(mode_of(state), state, events),
    decreases events.len(),
{
    if events.len() > 0 {
        run_tracks_terminal(state, events.drop_last());
        step_tracks_terminal(run(state, events.drop_last()), events.last());
    }
}

/// An external process is started only while the terminal is suspended, and
/// the loop reads input and draws only while it is interactive.
pub proof fn effects_respect_mode(state: State)
    ensures
        process_pending(state) ==> mode_of(state) == Mode::Suspended,
        pending(state) is Read || pending(state) is Draw || pending(state) is Redraw
            ==> mode_of(state) == Mode::Interactive,
{
}

/// Once the terminal was handed over, taking it back is the next effect
/// whatever became of the external process.
pub proof fn resume_follows_launch(target: External, exit: Event)
    ensures
        pending(next_state(State::Launched(target), exit)) == Effect::Resume,
{
}

/// A bridge whose hand-over and take-back both succeed ends in interactive
/// mode: with a forced redraw when the process ran, and with the loop stopped
/// on a spawn failure when it could not be started.
pub proof fn bridge_returns_interactive(target: External, exit: Event)
    ensures
        ({
            let handed_over = next_state(State::Suspending(target), Event::Done);
            let exited = next_state(handed_over, exit);
            let back = next_state(exited, Event::Done);
            &&& pending(handed_over) == Effect::Run(target)
            &&& mode_of(handed_over) == Mode::Suspended
            &&& mode_of(back) == Mode::Interactive
            &&& !process_pending(back)
            &&& back == if exit == Event::Failed {
                failed(Failure::Spawn, Mode::Interactive)
            } else {
                State::Redrawing
            }
        }),
{
}

/// The quit key ends the loop at once: no external process is pending, the
/// terminal is interactive, and the outcome is a clean quit, which exits
/// with code zero once the terminal is restored.
pub proof fn quit_stops_the_loop()
    ensures
        exit_status(Outcome::Quit, true) == 0,
        next_state(State::Reading, Event::Key('q')) == (State::Stopped {
            outcome: Outcome::Quit,
            mode: Mode::Interactive,
        }),
        pending(next_state(State::Reading, Event::Key('q'))) == Effect::Stop(Outcome::Quit),
        !process_pending(next_state(State::Reading, Event::Key('q'))),
{
}

/// A key without a binding changes nothing: the loop goes to its next
/// iteration.
pub proof fn unbound_key_is_ignored(key: char)
    requires
        bound_action(key) == Action::Ignore,
    ensures
        next_state(State::Reading, Event::Key(key)) == State::Drawing,
{
}

/// Each bound key starts the action it names.
pub proof fn keys_start_their_actions(key: char)
    ensures
        next_state(State::Reading, Event::Key(key)) == dispatched(bound_action(key)),
        pending(dispatched(Action::Edit(Side::Left))) == Effect::Suspend,
        pending(dispatched(Action::Edit(Side::Right))) == Effect::Suspend,
        pending(dispatched(Action::Diff)) == Effect::Suspend,
        pending(dispatched(Action::Clear)) == Effect::Truncate(Side::Left),
{
}

/// The clear key truncates the left buffer, then the right one, then draws.
pub proof fn clear_truncates_both()
    ensures
        ({
            let first = next_state(State::Reading, Event::Key('c'));
            let second = next_state(first, Event::Done);
            &&& pending(first) == Effect::Truncate(Side::Left)
            &&& pending(second) == Effect::Truncate(Side::Right)
            &&& next_state(second, Event::Done) == State::Drawing
        }),
{
}

/// A buffer that cannot be truncated never ends the loop: the failure is
/// reported and the next iteration begins.
pub proof fn truncate_failure_is_not_fatal(side: Side, acknowledged: Event)
    ensures
        pending(next_state(State::Truncating(side), Event::Failed)) == Effect::Report(side),
        next_state(next_state(State::Truncating(side), Event::Failed), acknowledged)
            == State::Drawing,
{
}

/// Every fatal error exits with a code other than zero, and so does a quit
/// after which the terminal could not be restored.
pub proof fn failures_exit_nonzero(outcome: Outcome, restored: bool)
    ensures
        exit_status(outcome, restored) == 0 <==> outcome == Outcome::Quit && restored,
{
}

/// A stopped loop stays stopped, with the same outcome and mode.
pub proof fn stopped_is_final(state: State, events: Seq<Event>)
    requires
        state is Stopped,
    ensures
        run(state, events) == state,
    decreases events.len(),
{
    if events.len() > 0 {
        stopped_is_final(state, events.drop_last());
    }
}

/// The loop stops only on the quit key or on a failed effect, and a failed
/// truncation or report is never the reason.
pub proof fn stops_only_on_quit_or_failure(state: State, event: Event)
    requires
        !(state is Stopped),
        next_state(state, event) is Stopped,
    ensures
        event == Event::Failed || state == (State::Resuming { started: false }) || (state
            == State::Reading && event == Event::Key('q')),
        !(state is Truncating),
        !(state is Reporting),
{
}

} // verus!
