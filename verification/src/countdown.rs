//! The countdown of one work or break phase, advanced one tick at a time.
//!
//! A tick is one poll of the key queue followed by at most one display and
//! one decrement. The driver performs what `tick` hands back and waits one
//! tick period before the next call.

use vstd::prelude::*;
use crate::action::{handle_input_on_timer, spec_timer_action, KeyAction};
use crate::clock::{convert_to_min, spec_convert_to_min};

verus! {

/// The state of a countdown.
#[derive(Clone, Copy, Debug, PartialEq, Eq, Structural)]
pub struct Countdown {
    /// Seconds still to run.
    pub remaining: u32,
    /// Whether time is frozen.
    pub paused: bool,
    /// Whether the user asked to leave.
    pub quited: bool,
}

/// What the driver has to do after a tick.
#[derive(Clone, Debug, PartialEq, Eq)]
pub enum TickEffect {
    /// The user quit: give the terminal back and stop. Nothing is displayed
    /// and no wait follows.
    Release,
    /// Display this text, then wait one tick period.
    Render(String),
    /// Time is frozen: display nothing, wait one tick period.
    Frozen,
}

/// The mathematical value of a `TickEffect`.
pub enum TickEffectView {
    Release,
    Render(Seq<char>),
    Frozen,
}

impl View for TickEffect {
    type V = TickEffectView;

    open spec fn view(&self) -> TickEffectView {
        match self {
            TickEffect::Release => TickEffectView::Release,
            TickEffect::Render(text) => TickEffectView::Render(text@),
            TickEffect::Frozen => TickEffectView::Frozen,
        }
    }
}

impl Countdown {
    /// A fresh countdown: unpaused, not quit.
    pub open spec fn spec_new(total_seconds: u32) -> Countdown {
        Countdown { remaining: total_seconds, paused: false, quited: false }
    }

    /// Whether another tick is due.
    pub open spec fn running(self) -> bool {
        self.remaining != 0 && !self.quited
    }

    /// The paused flag once the poll has been applied.
    pub open spec fn paused_after(self, polled: Option<KeyAction>) -> bool {
        if spec_timer_action(polled) == KeyAction::Pause {
            !self.paused
        } else {
            self.paused
        }
    }

    /// The number of seconds that the tick displays, if it displays any.
    pub open spec fn shown(self, polled: Option<KeyAction>) -> Option<u32> {
        if self.running() && spec_timer_action(polled) != KeyAction::Quit && !self.paused_after(
            polled,
        ) {
            Some(self.remaining)
        } else {
            None
        }
    }

    /// The state after one tick. A countdown that is not running stays as it
    /// is.
    pub open spec fn after(self, polled: Option<KeyAction>) -> Countdown {
        if !self.running() {
            self
        } else if spec_timer_action(polled) == KeyAction::Quit {
            Countdown { quited: true, ..self }
        } else if self.paused_after(polled) {
            Countdown { paused: true, ..self }
        } else {
            Countdown { remaining: (self.remaining - 1) as u32, paused: false, ..self }
        }
    }

    /// What one tick of a running countdown hands to the driver.
    pub open spec fn effect(self, polled: Option<KeyAction>) -> TickEffectView {
        if spec_timer_action(polled) == KeyAction::Quit {
            TickEffectView::Release
        } else if self.paused_after(polled) {
            TickEffectView::Frozen
        } else {
            TickEffectView::Render(spec_convert_to_min(self.remaining as nat))
        }
    }

    /// The state after the ticks that `polls` gives rise to, one poll per
    /// tick, in order.
    pub open spec fn run(self, polls: Seq<Option<KeyAction>>) -> Countdown
        decreases polls.len(),
    {
        if polls.len() == 0 {
            self
        } else {
            self.run(polls.drop_last()).after(polls.last())
        }
    }

    /// The seconds displayed during those ticks, in order.
    pub open spec fn rendered(self, polls: Seq<Option<KeyAction>>) -> Seq<u32>
        decreases polls.len(),
    {
        if polls.len() == 0 {
            Seq::empty()
        } else {
            let before = self.rendered(polls.drop_last());
            match self.run(polls.drop_last()).shown(polls.last()) {
                Some(seconds) => before.push(seconds),
                None => before,
            }
        }
    }

    /// Starts a countdown of `total_seconds`.
    pub fn new(total_seconds: u32) -> (timer: Countdown)
        ensures
            timer == Countdown::spec_new(total_seconds),
    {
        Countdown { remaining: total_seconds, paused: false, quited: false }
    }

    /// Whether another tick is due: time is left and the user has not quit.
    pub fn is_running(&self) -> (running: bool)
        ensures
            running == self.running(),
    {
        self.remaining != 0 && !self.quited
    }

    /// One tick. `polled` is what one non-blocking poll of the key queue
    /// gave, `None` for an empty queue.
    ///
    /// `Quit` stops the countdown at once: the current second is neither
    /// displayed nor counted. `Pause` toggles the paused flag, effective in
    /// this very tick. An unpaused tick displays the remaining time and then
    /// takes one second off; a paused tick leaves the time as it is.
    pub fn tick(&mut self, polled: Option<KeyAction>) -> (effect: TickEffect)
        requires
            old(self).running(),
        ensures
            *final(self) == old(self).after(polled),
            effect@ == old(self).effect(polled),
    {
        match handle_input_on_timer(polled) {
            KeyAction::Quit => {
                self.quited = true;
                return TickEffect::Release;
            },
            KeyAction::Pause => {
                self.paused = !self.paused;
            },
            _ => {},
        }
        if self.paused {
            TickEffect::Frozen
        } else {
            let text = convert_to_min(self.remaining);
            self.remaining = self.remaining - 1;
            TickEffect::Render(text)
        }
    }

    /// Runs the ticks of a recorded sequence of polls, one poll per tick,
    /// without waiting in between, and returns the texts displayed. Polls
    /// that come after the countdown has stopped are left unread.
    pub fn replay(&mut self, polls: &Vec<Option<KeyAction>>) -> (texts: Vec<String>)
        ensures
            *final(self) == old(self).run(polls@),
            texts@.len() == old(self).rendered(polls@).len(),
            forall|i: int|
                0 <= i < texts@.len() ==> #[trigger] texts@[i]@ == spec_convert_to_min(
                    old(self).rendered(polls@)[i] as nat,
                ),
    {
        let ghost start = *self;
        let mut texts: Vec<String> = Vec::new();
        let mut i: usize = 0;
        while i < polls.len()
            invariant
                0 <= i <= polls.len(),
                *self == start.run(polls@.take(i as int)),
                texts@.len() == start.rendered(polls@.take(i as int)).len(),
                forall|k: int|
                    0 <= k < texts@.len() ==> #[trigger] texts@[k]@ == spec_convert_to_min(
                        start.rendered(polls@.take(i as int))[k] as nat,
                    ),
            decreases polls.len() - i,
        {
            let polled = polls[i];
            proof {
                let next = polls@.take(i + 1);
                assert(next.drop_last() =~= polls@.take(i as int));
                assert(next.last() == polled);
            }
            if self.is_running() {
                match self.tick(polled) {
                    TickEffect::Render(text) => {
                        texts.push(text);
                    },
                    _ => {},
                }
            }
            i = i + 1;
        }
        proof {
            assert(polls@.take(i as int) =~= polls@);
        }
        texts
    }
}

/// Whether a countdown lets every poll of the sequence pass: none of them is
/// `Quit` or `Pause`.
pub open spec fn quiet(polls: Seq<Option<KeyAction>>) -> bool {
    forall|i: int| 0 <= i < polls.len() ==> spec_timer_action(#[trigger] polls[i]) == KeyAction::Nothing
}

/// A single poll runs as one tick.
pub proof fn lemma_run_one(start: Countdown, polled: Option<KeyAction>)
    ensures
        start.run(seq![polled]) == start.after(polled),
        start.rendered(seq![polled]) == match start.shown(polled) {
            Some(seconds) => seq![seconds],
            None => Seq::<u32>::empty(),
        },
{
    let polls = seq![polled];
    assert(polls.drop_last() =~= Seq::<Option<KeyAction>>::empty());
    assert(polls.last() == polled);
    assert(start.run(polls.drop_last()) == start);
    assert(start.rendered(polls.drop_last()) =~= Seq::<u32>::empty());
    assert(start.rendered(polls) =~= match start.shown(polled) {
        Some(seconds) => seq![seconds],
        None => Seq::<u32>::empty(),
    });
}

/// Running two sequences of polls one after the other is running their
/// concatenation: the state carries over, and the displays follow each other.
pub proof fn lemma_run_concat(
    start: Countdown,
    first: Seq<Option<KeyAction>>,
    second: Seq<Option<KeyAction>>,
)
    ensures
        start.run(first + second) == start.run(first).run(second),
        start.rendered(first + second) == start.rendered(first) + start.run(first).rendered(
            second,
        ),
    decreases second.len(),
{
    if second.len() == 0 {
        assert(first + second =~= first);
        assert(start.rendered(first) + Seq::<u32>::empty() =~= start.rendered(first));
    } else {
        let whole = first + second;
        assert(whole.drop_last() =~= first + second.drop_last());
        assert(whole.last() == second.last());
        lemma_run_concat(start, first, second.drop_last());
        let mid = start.run(first);
        assert(start.rendered(whole) =~= start.rendered(first) + mid.rendered(second));
    }
}

/// A countdown that has stopped, at zero or by a quit, ignores every further
/// poll and displays nothing more.
pub proof fn lemma_stopped_stays(start: Countdown, polls: Seq<Option<KeyAction>>)
    requires
        !start.running(),
    ensures
        start.run(polls) == start,
        start.rendered(polls) == Seq::<u32>::empty(),
    decreases polls.len(),
{
    if polls.len() > 0 {
        lemma_stopped_stays(start, polls.drop_last());
    }
}

/// Left alone, an unpaused countdown takes one second off at every tick and
/// displays the time before taking it off: after `k` quiet polls, with `k`
/// at most the seconds left, `k` seconds are gone and the displays were the
/// `k` values counting down from the start.
pub proof fn lemma_quiet_ticks(start: Countdown, polls: Seq<Option<KeyAction>>)
    requires
        !start.paused,
        !start.quited,
        quiet(polls),
        polls.len() <= start.remaining,
    ensures
        start.run(polls) == (Countdown {
            remaining: (start.remaining - polls.len()) as u32,
            ..start
        }),
        start.rendered(polls) == Seq::new(polls.len(), |i: int| (start.remaining - i) as u32),
    decreases polls.len(),
{
    if polls.len() == 0 {
        assert(start.rendered(polls) =~= Seq::new(0, |i: int| (start.remaining - i) as u32));
    } else {
        let front = polls.drop_last();
        assert(quiet(front)) by {
            assert forall|i: int| 0 <= i < front.len() implies spec_timer_action(
                #[trigger] front[i],
            ) == KeyAction::Nothing by {
                assert(front[i] == polls[i]);
            }
        }
        lemma_quiet_ticks(start, front);
        assert(spec_timer_action(polls[polls.len() - 1]) == KeyAction::Nothing);
        assert(start.rendered(polls) =~= Seq::new(
            polls.len(),
            |i: int| (start.remaining - i) as u32,
        ));
    }
}

/// A countdown of `total_seconds` that meets no input runs to zero in
/// exactly `total_seconds` ticks and displays exactly that many times: first
/// the full time, then one second less at each tick, last the value 1. Zero
/// itself is never displayed.
pub proof fn uninterrupted_countdown(total_seconds: u32)
    ensures
        ({
            let polls = Seq::new(total_seconds as nat, |i: int| None::<KeyAction>);
            let start = Countdown::spec_new(total_seconds);
            &&& start.run(polls) == Countdown::spec_new(0)
            &&& !start.run(polls).running()
            &&& start.rendered(polls).len() == total_seconds
            &&& forall|i: int|
                0 <= i < total_seconds ==> #[trigger] start.rendered(polls)[i] == total_seconds
                    - i
            &&& forall|k: int|
                0 <= k < total_seconds ==> start.run(#[trigger] polls.take(k)).running()
        }),
{
    let polls = Seq::new(total_seconds as nat, |i: int| None::<KeyAction>);
    let start = Countdown::spec_new(total_seconds);
    lemma_quiet_ticks(start, polls);
    assert forall|k: int| 0 <= k < total_seconds implies start.run(
        #[trigger] polls.take(k),
    ).running() by {
        lemma_quiet_ticks(start, polls.take(k));
    }
}

/// Two pauses in a row undo each other: the first freezes the countdown
/// without display or decrement, the second lets it go on where it was. An
/// unpaused countdown that meets `Pause`, `Pause` is afterwards in the state,
/// and has displayed the same, as if it had met one empty poll, whatever
/// follows. No second is skipped and none is counted twice.
pub proof fn pause_twice_resumes(start: Countdown, rest: Seq<Option<KeyAction>>)
    requires
        !start.paused,
    ensures
        start.running() ==> start.after(Some(KeyAction::Pause)) == (Countdown {
            paused: true,
            ..start
        }),
        start.shown(Some(KeyAction::Pause)) == None::<u32>,
        start.run(seq![Some(KeyAction::Pause), Some(KeyAction::Pause)] + rest) == start.run(
            seq![None] + rest,
        ),
        start.rendered(seq![Some(KeyAction::Pause), Some(KeyAction::Pause)] + rest)
            == start.rendered(seq![None] + rest),
{
    let pause = Some(KeyAction::Pause);
    let twice = seq![pause, pause];
    let once = seq![None::<KeyAction>];
    assert(twice =~= seq![pause] + seq![pause]);
    lemma_run_one(start, pause);
    lemma_run_one(start.after(pause), pause);
    lemma_run_concat(start, seq![pause], seq![pause]);
    lemma_run_one(start, None);
    assert(start.run(twice) == start.run(once));
    assert(start.rendered(twice) =~= start.rendered(once));
    lemma_run_concat(start, twice, rest);
    lemma_run_concat(start, once, rest);
}

/// A quit ends a running countdown on the spot: the tick in which it arrives
/// displays nothing, the seconds left stay as they were, and whatever is
/// polled afterwards changes nothing.
pub proof fn quit_stops_at_once(start: Countdown, rest: Seq<Option<KeyAction>>)
    requires
        start.running(),
    ensures
        start.effect(Some(KeyAction::Quit)) == TickEffectView::Release,
        start.shown(Some(KeyAction::Quit)) == None::<u32>,
        start.run(seq![Some(KeyAction::Quit)] + rest) == (Countdown { quited: true, ..start }),
        start.rendered(seq![Some(KeyAction::Quit)] + rest) == Seq::<u32>::empty(),
{
    let quit = Some(KeyAction::Quit);
    lemma_run_one(start, quit);
    lemma_run_concat(start, seq![quit], rest);
    lemma_stopped_stays(start.after(quit), rest);
    assert(start.rendered(seq![quit] + rest) =~= Seq::<u32>::empty());
}

/// Whatever is typed, every display goes with exactly one second taken off:
/// the displays count down from the starting time without a gap or a
/// repetition, and the seconds left are the starting time less the number
/// of displays.
pub proof fn every_display_counts_one_second(start: Countdown, polls: Seq<Option<KeyAction>>)
    ensures
        start.rendered(polls).len() <= start.remaining,
        start.run(polls).remaining == start.remaining - start.rendered(polls).len(),
        forall|i: int|
            0 <= i < start.rendered(polls).len() ==> #[trigger] start.rendered(polls)[i]
                == start.remaining - i,
    decreases polls.len(),
{
    if polls.len() > 0 {
        every_display_counts_one_second(start, polls.drop_last());
    }
}

/// A paused countdown that meets neither `Pause` nor `Quit` stands still:
/// no second is taken off and nothing is displayed, however many ticks pass.
pub proof fn paused_time_stands_still(start: Countdown, polls: Seq<Option<KeyAction>>)
    requires
        start.paused,
        quiet(polls),
    ensures
        start.run(polls) == start,
        start.rendered(polls) == Seq::<u32>::empty(),
    decreases polls.len(),
{
    if polls.len() > 0 {
        let front = polls.drop_last();
        assert(quiet(front)) by {
            assert forall|i: int| 0 <= i < front.len() implies spec_timer_action(
                #[trigger] front[i],
            ) == KeyAction::Nothing by {
                assert(front[i] == polls[i]);
            }
        }
        paused_time_stands_still(start, front);
        assert(spec_timer_action(polls[polls.len() - 1]) == KeyAction::Nothing);
    }
}

/// A countdown reports a quit only where `Quit` was polled.
pub proof fn quits_only_on_quit(start: Countdown, polls: Seq<Option<KeyAction>>)
    requires
        !start.quited,
        forall|i: int| 0 <= i < polls.len() ==> #[trigger] polls[i] != Some(KeyAction::Quit),
    ensures
        !start.run(polls).quited,
    decreases polls.len(),
{
    if polls.len() > 0 {
        let front = polls.drop_last();
        assert forall|i: int| 0 <= i < front.len() implies #[trigger] front[i] != Some(
            KeyAction::Quit,
        ) by {
            assert(front[i] == polls[i]);
        }
        quits_only_on_quit(start, front);
        assert(polls[polls.len() - 1] != Some(KeyAction::Quit));
    }
}

} // verus!
