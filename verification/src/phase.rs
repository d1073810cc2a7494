//! The cycle of phases: work, prompt, break, prompt, and work again.

use vstd::prelude::*;

verus! {

/// The two durations of a session, in seconds.
#[derive(Clone, Copy, Debug, PartialEq, Eq, Structural)]
pub struct Settings {
    /// Length of a work countdown.
    pub work_sec: u32,
    /// Length of a break countdown.
    pub break_sec: u32,
}

/// One of the four phases of the cycle.
#[derive(Clone, Copy, Debug, PartialEq, Eq, Structural)]
pub enum Phase {
    /// The work countdown.
    WorkTimer,
    /// The prompt that asks to start the break.
    BreakPrompt,
    /// The break countdown.
    BreakTimer,
    /// The prompt that asks to start work again.
    WorkPrompt,
}

impl Default for Settings {
    /// Twenty-five minutes of work, five minutes of break.
    fn default() -> (settings: Settings)
        ensures
            settings == (Settings { work_sec: 1500, break_sec: 300 }),
    {
        Settings { work_sec: 1500, break_sec: 300 }
    }
}

impl Phase {
    /// The phase that follows on normal completion.
    pub open spec fn spec_next(self) -> Phase {
        match self {
            Phase::WorkTimer => Phase::BreakPrompt,
            Phase::BreakPrompt => Phase::BreakTimer,
            Phase::BreakTimer => Phase::WorkPrompt,
            Phase::WorkPrompt => Phase::WorkTimer,
        }
    }

    /// The seconds that the phase counts down; `None` for a prompt.
    pub open spec fn spec_seconds(self, settings: Settings) -> Option<u32> {
        match self {
            Phase::WorkTimer => Some(settings.work_sec),
            Phase::BreakTimer => Some(settings.break_sec),
            _ => None,
        }
    }

    /// The milliseconds between two polls of the key queue in this phase.
    pub open spec fn spec_poll_period_millis(self) -> u64 {
        match self {
            Phase::WorkTimer | Phase::BreakTimer => 1000,
            _ => 100,
        }
    }

    /// The phase reached from `self` by `completions` normal completions.
    pub open spec fn after_completions(self, completions: nat) -> Phase
        decreases completions,
    {
        if completions == 0 {
            self
        } else {
            self.after_completions((completions - 1) as nat).spec_next()
        }
    }

    /// The phase that follows on normal completion.
    pub fn next(self) -> (next: Phase)
        ensures
            next == self.spec_next(),
    {
        match self {
            Phase::WorkTimer => Phase::BreakPrompt,
            Phase::BreakPrompt => Phase::BreakTimer,
            Phase::BreakTimer => Phase::WorkPrompt,
            Phase::WorkPrompt => Phase::WorkTimer,
        }
    }

    /// The seconds to count down in this phase, or `None` where the phase is
    /// a prompt.
    pub fn seconds(self, settings: &Settings) -> (seconds: Option<u32>)
        ensures
            seconds == self.spec_seconds(*settings),
    {
        match self {
            Phase::WorkTimer => Some(settings.work_sec),
            Phase::BreakTimer => Some(settings.break_sec),
            _ => None,
        }
    }

    /// The time to wait between two polls: one second while a countdown
    /// runs, a tenth of a second while a prompt waits.
    pub fn poll_period_millis(self) -> (millis: u64)
        ensures
            millis == self.spec_poll_period_millis(),
    {
        match self {
            Phase::WorkTimer | Phase::BreakTimer => 1000,
            _ => 100,
        }
    }
}

/// Where the session goes when a phase has ended: nowhere after a quit,
/// to the next phase of the cycle otherwise.
pub open spec fn spec_advance(phase: Phase, quited: bool) -> Option<Phase> {
    if quited {
        None
    } else {
        Some(phase.spec_next())
    }
}

/// Decides what follows a phase that has ended. `quited` is what the phase
/// reported; `None` tells the driver to leave.
pub fn advance(phase: Phase, quited: bool) -> (next: Option<Phase>)
    ensures
        next == spec_advance(phase, quited),
{
    if quited {
        None
    } else {
        Some(phase.next())
    }
}

/// The cycle has four phases: four completions lead back to where they
/// began, and so does every multiple of four.
pub proof fn cycle_returns(phase: Phase, rounds: nat)
    ensures
        phase.spec_next().spec_next().spec_next().spec_next() == phase,
        phase.after_completions(4 * rounds) == phase,
    decreases rounds,
{
    if rounds > 0 {
        cycle_returns(phase, (rounds - 1) as nat);
        let base = phase.after_completions((4 * (rounds - 1)) as nat);
        assert(phase.after_completions((4 * rounds - 3) as nat) == base.spec_next());
        assert(phase.after_completions((4 * rounds - 2) as nat) == base.spec_next().spec_next());
        assert(phase.after_completions((4 * rounds - 1) as nat)
            == base.spec_next().spec_next().spec_next());
        assert(phase.after_completions(4 * rounds)
            == base.spec_next().spec_next().spec_next().spec_next());
    }
}

/// The session ends only by a quit: a phase that was not quit is always
/// followed by another, and countdowns and prompts alternate.
pub proof fn only_quit_ends(phase: Phase, settings: Settings)
    ensures
        spec_advance(phase, false) == Some(phase.spec_next()),
        spec_advance(phase, true) == None::<Phase>,
        phase.spec_seconds(settings) is Some <==> phase.spec_next().spec_seconds(settings) is None,
{
}

} // verus!
