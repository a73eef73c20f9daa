use vstd::prelude::*;

use crate::geometry::Point;
use crate::random::draw_between;
use crate::scan::Match;
use crate::script::{ClickKind, Event};
use crate::select::{
    densities_valid, draw_jitter, jitter_ok, jittered, quartile_count, quartile_len, select_with,
    top_quartile,
};

verus! {

/// Interval between two looks at the screen while waiting after an action, in milliseconds.
pub const POLL_MS: u32 = 100;

/// Bounds of the short cooldown after a skipped or abandoned attempt, in milliseconds.
pub const COOLDOWN_MIN_MS: u32 = 200;

pub const COOLDOWN_MAX_MS: u32 = 600;

/// Where the execution of one event stands.
#[derive(Clone, Copy, Debug, PartialEq, Eq, Structural)]
pub enum Phase {
    /// Nothing has been asked yet.
    Begin,
    /// A scan was asked for; its matches are awaited.
    Scanning,
    /// A move and action were asked for.
    Acting,
    /// Waiting out the delay after an action, looking at the screen every
    /// `POLL_MS`; `waited` of `total` milliseconds are asked for so far.
    Monitoring { waited: u32, total: u32 },
    /// A sleep was asked for; the attempt ends when it is over.
    Waiting,
    /// A key press was asked for.
    Pressing,
    /// Every attempt is done.
    Finished,
}

/// The state of one event's execution: attempts left, this one included, and the phase.
#[derive(Clone, Copy, Debug, PartialEq, Eq, Structural)]
pub struct ExecState {
    pub remaining: u32,
    pub phase: Phase,
}

/// What happened since the last command.
pub enum Outcome {
    /// The event has just been taken up.
    Started,
    /// The screen was scanned for the event's color; these matched.
    Scanned(Vec<Match>),
    /// The pointer moved and the action was performed.
    Acted,
    /// The sleep is over.
    Slept,
    /// The key was pressed.
    KeyPressed,
}

/// What to do next.
#[derive(Clone, Copy, Debug, PartialEq, Eq, Structural)]
pub enum Command {
    /// Scan the screen for the event's color and report the matches.
    Scan,
    /// Move the pointer to `target` and perform `kind` there.
    Act { target: Point, kind: ClickKind },
    /// Sleep this many milliseconds.
    Sleep(u32),
    /// Sleep this many milliseconds, then scan and report the matches.
    Poll(u32),
    /// Press the event's key.
    PressKey,
    /// The event is done.
    Done,
}

/// The random values one step may use.
#[derive(Clone, Copy, Debug)]
pub struct Draws {
    /// The delay after an attempt, within the event's range.
    pub delay: u32,
    /// The short cooldown after a skipped or abandoned attempt.
    pub cooldown: u32,
    /// Which match of the top density quartile to aim at.
    pub pick: usize,
    /// Jitter of the target on each axis.
    pub dx: i64,
    pub dy: i64,
}

/// Draws that `step_with` accepts for `ev` and `out`.
pub open spec fn draws_ok(ev: Event, out: Outcome, d: Draws) -> bool {
    &&& ev.delay_rng()[0] <= d.delay <= ev.delay_rng()[1]
    &&& COOLDOWN_MIN_MS <= d.cooldown <= COOLDOWN_MAX_MS
    &&& jitter_ok(d.dx as int)
    &&& jitter_ok(d.dy as int)
    &&& (out matches Outcome::Scanned(r) ==> (r@.len() > 0 ==> d.pick < quartile_len(
        r@.len() as int,
    )))
}

/// Matches reported by a scan carry densities in `1..=9`.
pub open spec fn outcome_ok(out: Outcome) -> bool {
    out matches Outcome::Scanned(r) ==> densities_valid(r@)
}

/// The outcome that answers the command issued on entering `phase`.
pub open spec fn accepts(phase: Phase, out: Outcome) -> bool {
    match phase {
        Phase::Begin => out is Started,
        Phase::Scanning => out is Scanned,
        Phase::Acting => out is Acted,
        Phase::Monitoring { .. } => out is Scanned,
        Phase::Waiting => out is Slept,
        Phase::Pressing => out is KeyPressed,
        Phase::Finished => false,
    }
}

impl ExecState {
    /// The state before the first attempt of `ev`.
    pub open spec fn initial(ev: Event) -> ExecState {
        ExecState { remaining: ev.count(), phase: Phase::Begin }
    }

    /// The phase suits the kind of event and the counts are consistent.
    pub open spec fn wf(&self, ev: Event) -> bool {
        match self.phase {
            Phase::Finished => self.remaining == 0,
            Phase::Begin | Phase::Waiting => self.remaining >= 1,
            Phase::Scanning | Phase::Acting => ev is Pointer && self.remaining >= 1,
            Phase::Monitoring { waited, total } => ev is Pointer && self.remaining >= 1 && waited
                <= total,
            Phase::Pressing => ev is Key && self.remaining >= 1,
        }
    }

    /// The current attempt is over: start the next one, or finish.
    pub open spec fn end_attempt(&self, ev: Event) -> (ExecState, Command) {
        if self.remaining <= 1 {
            (ExecState { remaining: 0, phase: Phase::Finished }, Command::Done)
        } else {
            let rem = (self.remaining - 1) as u32;
            match ev {
                Event::Pointer(_) => (ExecState { remaining: rem, phase: Phase::Scanning }, Command::Scan),
                Event::Key(_) => (ExecState { remaining: rem, phase: Phase::Pressing }, Command::PressKey),
            }
        }
    }

    /// The next state and command after `out`, with the random values `d`.
    pub open spec fn spec_step(&self, ev: Event, out: Outcome, d: Draws) -> (ExecState, Command) {
        let rem = self.remaining;
        match ev {
            Event::Pointer(m) => match (self.phase, out) {
                (Phase::Begin, _) => (ExecState { remaining: rem, phase: Phase::Scanning }, Command::Scan),
                (Phase::Scanning, Outcome::Scanned(r)) => if r@.len() == 0 {
                    let wait = if m.skip_if_vanished {
                        d.cooldown
                    } else {
                        d.delay
                    };
                    (ExecState { remaining: rem, phase: Phase::Waiting }, Command::Sleep(wait))
                } else {
                    let target = jittered(top_quartile(r@)[d.pick as int], d.dx as int, d.dy as int);
                    (
                        ExecState { remaining: rem, phase: Phase::Acting },
                        Command::Act { target, kind: m.action },
                    )
                },
                (Phase::Acting, _) => if m.skip_if_vanished {
                    let w = if d.delay < POLL_MS {
                        d.delay
                    } else {
                        POLL_MS
                    };
                    (
                        ExecState { remaining: rem, phase: Phase::Monitoring { waited: w, total: d.delay } },
                        Command::Poll(w),
                    )
                } else {
                    (ExecState { remaining: rem, phase: Phase::Waiting }, Command::Sleep(d.delay))
                },
                (Phase::Monitoring { waited, total }, Outcome::Scanned(r)) => if m.skip_if_vanished
                    && r@.len() == 0 {
                    (ExecState { remaining: rem, phase: Phase::Waiting }, Command::Sleep(d.cooldown))
                } else if waited >= total {
                    self.end_attempt(ev)
                } else {
                    let w = if total - waited < POLL_MS {
                        (total - waited) as u32
                    } else {
                        POLL_MS
                    };
                    (
                        ExecState {
                            remaining: rem,
                            phase: Phase::Monitoring { waited: (waited + w) as u32, total },
                        },
                        Command::Poll(w),
                    )
                },
                (Phase::Waiting, _) => self.end_attempt(ev),
                _ => (*self, Command::Done),
            },
            Event::Key(_) => match self.phase {
                Phase::Begin => (ExecState { remaining: rem, phase: Phase::Pressing }, Command::PressKey),
                Phase::Pressing => (ExecState { remaining: rem, phase: Phase::Waiting }, Command::Sleep(d.delay)),
                Phase::Waiting => self.end_attempt(ev),
                _ => (*self, Command::Done),
            },
        }
    }

    /// The state before the first attempt of `ev`.
    pub fn start(ev: &Event) -> (r: ExecState)
        requires
            ev.wf(),
        ensures
            r == ExecState::initial(*ev),
            r.wf(*ev),
    {
        let count = match ev {
            Event::Pointer(m) => m.count,
            Event::Key(k) => k.count,
        };
        ExecState { remaining: count, phase: Phase::Begin }
    }

    pub fn is_finished(&self) -> (r: bool)
        ensures
            r == (self.phase is Finished),
    {
        match self.phase {
            Phase::Finished => true,
            _ => false,
        }
    }

    /// Whether `out` answers the command issued on entering the current phase.
    pub fn expects(&self, out: &Outcome) -> (r: bool)
        ensures
            r == accepts(self.phase, *out),
    {
        match (self.phase, out) {
            (Phase::Begin, Outcome::Started) => true,
            (Phase::Scanning, Outcome::Scanned(_)) => true,
            (Phase::Acting, Outcome::Acted) => true,
            (Phase::Monitoring { .. }, Outcome::Scanned(_)) => true,
            (Phase::Waiting, Outcome::Slept) => true,
            (Phase::Pressing, Outcome::KeyPressed) => true,
            _ => false,
        }
    }

    fn end_attempt_exec(&mut self, ev: &Event) -> (cmd: Command)
        requires
            old(self).remaining >= 1,
        ensures
            (*final(self), cmd) == old(self).end_attempt(*ev),
    {
        if self.remaining <= 1 {
            self.remaining = 0;
            self.phase = Phase::Finished;
            Command::Done
        } else {
            self.remaining = self.remaining - 1;
            match ev {
                Event::Pointer(_) => {
                    self.phase = Phase::Scanning;
                    Command::Scan
                },
                Event::Key(_) => {
                    self.phase = Phase::Pressing;
                    Command::PressKey
                },
            }
        }
    }

    /// Decides the next command of `ev` from what just happened, with the
    /// random values `d`, and moves to the matching phase.
    pub fn step_with(&mut self, ev: &Event, out: &Outcome, d: &Draws) -> (cmd: Command)
        requires
            old(self).wf(*ev),
            ev.wf(),
            accepts(old(self).phase, *out),
            outcome_ok(*out),
            draws_ok(*ev, *out, *d),
        ensures
            (*final(self), cmd) == old(self).spec_step(*ev, *out, *d),
            final(self).wf(*ev),
    {
        match ev {
            Event::Pointer(m) => match (self.phase, out) {
                (Phase::Begin, _) => {
                    self.phase = Phase::Scanning;
                    Command::Scan
                },
                (Phase::Scanning, Outcome::Scanned(r)) => {
                    if r.len() == 0 {
                        let wait = if m.skip_if_vanished {
                            d.cooldown
                        } else {
                            d.delay
                        };
                        self.phase = Phase::Waiting;
                        Command::Sleep(wait)
                    } else {
                        let chosen = select_with(r, d.pick, d.dx, d.dy);
                        self.phase = Phase::Acting;
                        match chosen {
                            Some(target) => Command::Act { target, kind: m.action },
                            None => Command::Done,
                        }
                    }
                },
                (Phase::Acting, _) => {
                    if m.skip_if_vanished {
                        let w = if d.delay < POLL_MS {
                            d.delay
                        } else {
                            POLL_MS
                        };
                        self.phase = Phase::Monitoring { waited: w, total: d.delay };
                        Command::Poll(w)
                    } else {
                        self.phase = Phase::Waiting;
                        Command::Sleep(d.delay)
                    }
                },
                (Phase::Monitoring { waited, total }, Outcome::Scanned(r)) => {
                    if m.skip_if_vanished && r.len() == 0 {
                        self.phase = Phase::Waiting;
                        Command::Sleep(d.cooldown)
                    } else if waited >= total {
                        self.end_attempt_exec(ev)
                    } else {
                        let w = if total - waited < POLL_MS {
                            total - waited
                        } else {
                            POLL_MS
                        };
                        self.phase = Phase::Monitoring { waited: waited + w, total };
                        Command::Poll(w)
                    }
                },
                (Phase::Waiting, _) => self.end_attempt_exec(ev),
                _ => Command::Done,
            },
            Event::Key(_) => match self.phase {
                Phase::Begin => {
                    self.phase = Phase::Pressing;
                    Command::PressKey
                },
                Phase::Pressing => {
                    self.phase = Phase::Waiting;
                    Command::Sleep(d.delay)
                },
                Phase::Waiting => self.end_attempt_exec(ev),
                _ => Command::Done,
            },
        }
    }

    /// Decides the next command of `ev` from what just happened, drawing fresh
    /// random values: the delay within the event's range, the cooldown, which
    /// match of the top density quartile to aim at, and the jitter.
    pub fn step(&mut self, ev: &Event, out: &Outcome) -> (cmd: Command)
        requires
            old(self).wf(*ev),
            ev.wf(),
            accepts(old(self).phase, *out),
            outcome_ok(*out),
        ensures
            exists|d: Draws|
                draws_ok(*ev, *out, d) && (*final(self), cmd) == #[trigger] old(self).spec_step(
                    *ev,
                    *out,
                    d,
                ),
            final(self).wf(*ev),
    {
        let range = match ev {
            Event::Pointer(m) => m.delay_rng,
            Event::Key(k) => k.delay_rng,
        };
        let delay = draw_between(range[0] as u64, range[1] as u64) as u32;
        let cooldown = draw_between(COOLDOWN_MIN_MS as u64, COOLDOWN_MAX_MS as u64) as u32;
        let pick = match out {
            Outcome::Scanned(r) => if r.len() > 0 {
                let k = quartile_count(r.len());
                draw_between(0, (k - 1) as u64) as usize
            } else {
                0
            },
            _ => 0,
        };
        let dx = draw_jitter();
        let dy = draw_jitter();
        let d = Draws { delay, cooldown, pick, dx, dy };
        let ghost before = *self;
        let cmd = self.step_with(ev, out, &d);
        assert(draws_ok(*ev, *out, d) && (*self, cmd) == before.spec_step(*ev, *out, d));
        cmd
    }
}

} // verus!
