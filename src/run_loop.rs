use vstd::prelude::*;

use crate::color::ColorSignature;
use crate::scan::Match;
use crate::script::BotConfig;

verus! {

/// An unwanted screen state checked before the run: while `signature` is on
/// screen, press `key` and back off `backoff_ms` milliseconds.
pub struct Guard {
    pub signature: ColorSignature,
    pub key: String,
    pub backoff_ms: u32,
}

/// Where the run stands.
#[derive(Clone, Copy, Debug, PartialEq, Eq, Structural)]
pub enum RunPhase {
    /// Nothing has been asked yet.
    Start,
    /// A scan for the guard's signature was asked for.
    GuardCheck,
    /// The guard's key press was asked for.
    GuardPress,
    /// The guard's back-off sleep was asked for.
    GuardBackoff,
    /// The elapsed time was asked for, before a pass over the script.
    Clock,
    /// The event at `cursor` of the script is being executed.
    Running { cursor: usize },
    /// The deadline has passed.
    Finished,
}

/// What happened since the last run command.
pub enum RunOutcome {
    /// The run has just begun.
    Started,
    /// The screen was scanned for the guard's signature; these matched.
    Scanned(Vec<Match>),
    /// The guard's key was pressed.
    KeyPressed,
    /// The back-off sleep is over.
    Slept,
    /// This many milliseconds have passed since the run began.
    Elapsed(u64),
    /// The event that was asked for has been executed in full.
    EventDone,
}

/// What the run does next.
#[derive(Clone, Copy, Debug, PartialEq, Eq, Structural)]
pub enum RunCommand {
    /// Scan the screen for the guard's signature.
    CheckGuard,
    /// Press the guard's key.
    PressGuardKey,
    /// Sleep this many milliseconds.
    Backoff(u32),
    /// Report the time elapsed since the run began.
    CheckClock,
    /// Execute the event at this index of the script.
    Execute(usize),
    /// The run is over.
    Finish,
}

/// The run's deadline in milliseconds after its start.
pub open spec fn deadline_ms(config: &BotConfig) -> int {
    config.runtime * 1000
}

/// The outcome that answers the command issued on entering `phase`.
pub open spec fn run_accepts(phase: RunPhase, out: RunOutcome) -> bool {
    match phase {
        RunPhase::Start => out is Started,
        RunPhase::GuardCheck => out is Scanned,
        RunPhase::GuardPress => out is KeyPressed,
        RunPhase::GuardBackoff => out is Slept,
        RunPhase::Clock => out is Elapsed,
        RunPhase::Running { .. } => out is EventDone,
        RunPhase::Finished => false,
    }
}

/// The cursor stays within the script.
pub open spec fn run_wf(phase: RunPhase, script_len: usize) -> bool {
    phase matches RunPhase::Running { cursor } ==> cursor < script_len
}

/// The next phase and command of the run after `out`.
pub open spec fn spec_run_step(
    config: &BotConfig,
    guard: Option<&Guard>,
    script_len: usize,
    phase: RunPhase,
    out: RunOutcome,
) -> (RunPhase, RunCommand) {
    match (phase, out) {
        (RunPhase::Start, _) => if guard is Some {
            (RunPhase::GuardCheck, RunCommand::CheckGuard)
        } else {
            (RunPhase::Clock, RunCommand::CheckClock)
        },
        (RunPhase::GuardCheck, RunOutcome::Scanned(r)) => if r@.len() > 0 {
            (RunPhase::GuardPress, RunCommand::PressGuardKey)
        } else {
            (RunPhase::Clock, RunCommand::CheckClock)
        },
        (RunPhase::GuardPress, _) => match guard {
            Some(g) => (RunPhase::GuardBackoff, RunCommand::Backoff(g.backoff_ms)),
            None => (RunPhase::GuardBackoff, RunCommand::Backoff(0)),
        },
        (RunPhase::GuardBackoff, _) => (RunPhase::GuardCheck, RunCommand::CheckGuard),
        (RunPhase::Clock, RunOutcome::Elapsed(ms)) => if ms >= deadline_ms(config) {
            (RunPhase::Finished, RunCommand::Finish)
        } else if script_len == 0 {
            (RunPhase::Clock, RunCommand::CheckClock)
        } else {
            (RunPhase::Running { cursor: 0 }, RunCommand::Execute(0))
        },
        (RunPhase::Running { cursor }, _) => if cursor + 1 < script_len {
            (RunPhase::Running { cursor: (cursor + 1) as usize }, RunCommand::Execute((cursor + 1) as usize))
        } else {
            (RunPhase::Clock, RunCommand::CheckClock)
        },
        _ => (phase, RunCommand::Finish),
    }
}

/// Whether `out` answers the command issued on entering `phase`.
pub fn run_expects(phase: RunPhase, out: &RunOutcome) -> (r: bool)
    ensures
        r == run_accepts(phase, *out),
{
    match (phase, out) {
        (RunPhase::Start, RunOutcome::Started) => true,
        (RunPhase::GuardCheck, RunOutcome::Scanned(_)) => true,
        (RunPhase::GuardPress, RunOutcome::KeyPressed) => true,
        (RunPhase::GuardBackoff, RunOutcome::Slept) => true,
        (RunPhase::Clock, RunOutcome::Elapsed(_)) => true,
        (RunPhase::Running { .. }, RunOutcome::EventDone) => true,
        _ => false,
    }
}

/// Decides the run's next command: first wait out the guard, pressing its key
/// and backing off for as long as its signature is on screen; then run the
/// script pass after pass, looking at the clock only between passes, until
/// the configured runtime has elapsed.
pub fn run_event_loop(
    config: &BotConfig,
    guard: Option<&Guard>,
    script_len: usize,
    phase: &mut RunPhase,
    out: &RunOutcome,
) -> (cmd: RunCommand)
    requires
        run_wf(*old(phase), script_len),
        run_accepts(*old(phase), *out),
    ensures
        (*final(phase), cmd) == spec_run_step(config, guard, script_len, *old(phase), *out),
        run_wf(*final(phase), script_len),
{
    match (*phase, out) {
        (RunPhase::Start, _) => {
            if guard.is_some() {
                *phase = RunPhase::GuardCheck;
                RunCommand::CheckGuard
            } else {
                *phase = RunPhase::Clock;
                RunCommand::CheckClock
            }
        },
        (RunPhase::GuardCheck, RunOutcome::Scanned(r)) => {
            if r.len() > 0 {
                *phase = RunPhase::GuardPress;
                RunCommand::PressGuardKey
            } else {
                *phase = RunPhase::Clock;
                RunCommand::CheckClock
            }
        },
        (RunPhase::GuardPress, _) => {
            *phase = RunPhase::GuardBackoff;
            match guard {
                Some(g) => RunCommand::Backoff(g.backoff_ms),
                None => RunCommand::Backoff(0),
            }
        },
        (RunPhase::GuardBackoff, _) => {
            *phase = RunPhase::GuardCheck;
            RunCommand::CheckGuard
        },
        (RunPhase::Clock, RunOutcome::Elapsed(ms)) => {
            if *ms >= (config.runtime as u64) * 1000 {
                *phase = RunPhase::Finished;
                RunCommand::Finish
            } else if script_len == 0 {
                RunCommand::CheckClock
            } else {
                *phase = RunPhase::Running { cursor: 0 };
                RunCommand::Execute(0)
            }
        },
        (RunPhase::Running { cursor }, _) => {
            if cursor + 1 < script_len {
                *phase = RunPhase::Running { cursor: cursor + 1 };
                RunCommand::Execute(cursor + 1)
            } else {
                *phase = RunPhase::Clock;
                RunCommand::CheckClock
            }
        },
        _ => RunCommand::Finish,
    }
}

} // verus!
