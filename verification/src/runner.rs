//! The periodic task runner's decisions. Each engine loops on its own
//! timer: every iteration races the timer tick against the process-wide
//! cancellation signal, runs the engine's action when the tick wins, and
//! returns when cancellation wins. An in-flight action is never
//! interrupted, and its outcome never reaches the scheduler.

use vstd::prelude::*;

verus! {

/// The error taxonomy of an engine action: a failure calling an external
/// API, or a failure of a persistent-store operation. Malformed payload is
/// a third kind that is dropped where it is parsed and never raised.
#[derive(PartialEq, Eq, Structural, Clone, Copy, Debug)]
pub enum EngineError {
    Gateway,
    Store,
}

/// What one iteration of a periodic loop observed first: its timer tick, or
/// the process-wide cancellation signal.
pub enum RunnerEvent {
    TimerTick,
    CancelSignal,
}

/// What the loop does with the observation: run the engine's action once,
/// or shut the worker down.
pub enum RunnerDirective {
    RunAction,
    Shutdown,
}

/// Decide one iteration of a periodic loop: a timer tick runs the action,
/// the cancellation signal shuts the worker down without starting another
/// action.
pub fn runner_step(event: &RunnerEvent) -> (directive: RunnerDirective)
    ensures
        directive is RunAction <==> event is TimerTick,
        directive is Shutdown <==> event is CancelSignal,
{
    match event {
        RunnerEvent::TimerTick => RunnerDirective::RunAction,
        RunnerEvent::CancelSignal => RunnerDirective::Shutdown,
    }
}

/// An action's outcome never stops the loop: errors are logged by the
/// caller and the worker waits for its next tick. The only retry of a
/// failed run is the next scheduled run.
pub fn continue_after_action(outcome: &Result<(), EngineError>) -> (keep_running: bool)
    ensures
        keep_running,
{
    let _ = outcome;
    true
}

} // verus!
