//! The confirmation prompt between two countdowns.
//!
//! The prompt is displayed once; then the key queue is polled, at a shorter
//! period than a countdown's, until the user confirms or quits.

use vstd::prelude::*;
use crate::action::KeyAction;

verus! {

/// What one poll means while a prompt is waiting.
#[derive(Clone, Copy, Debug, PartialEq, Eq, Structural)]
pub enum IntervalStep {
    /// The user confirmed: go on to the next phase.
    Proceed,
    /// The user quit: give the terminal back and stop.
    Quit,
    /// Nothing decisive: wait one poll period and poll again.
    Wait,
}

/// The meaning of one poll: `Confirm` proceeds, `Quit` quits, an empty poll
/// and every other action wait.
pub open spec fn spec_interval_step(polled: Option<KeyAction>) -> IntervalStep {
    match polled {
        Some(KeyAction::Confirm) => IntervalStep::Proceed,
        Some(KeyAction::Quit) => IntervalStep::Quit,
        _ => IntervalStep::Wait,
    }
}

/// Whether every poll of the sequence leaves the prompt waiting.
pub open spec fn all_wait(polls: Seq<Option<KeyAction>>) -> bool {
    forall|i: int| 0 <= i < polls.len() ==> spec_interval_step(#[trigger] polls[i]) == IntervalStep::Wait
}

/// How the prompt ends on a sequence of polls: with the first poll that does
/// not wait, or still waiting when all of them do.
pub open spec fn interval_outcome(polls: Seq<Option<KeyAction>>) -> IntervalStep
    decreases polls.len(),
{
    if polls.len() == 0 {
        IntervalStep::Wait
    } else if spec_interval_step(polls[0]) == IntervalStep::Wait {
        interval_outcome(polls.drop_first())
    } else {
        spec_interval_step(polls[0])
    }
}

/// How many polls of the sequence the prompt reads: up to and including the
/// first that does not wait.
pub open spec fn interval_reads(polls: Seq<Option<KeyAction>>) -> nat
    decreases polls.len(),
{
    if polls.len() == 0 {
        0
    } else if spec_interval_step(polls[0]) == IntervalStep::Wait {
        1 + interval_reads(polls.drop_first())
    } else {
        1
    }
}

/// Decides on one poll of the key queue while a prompt is waiting. `polled`
/// is `None` when the queue was empty or closed.
pub fn handle_input_on_interval(polled: Option<KeyAction>) -> (step: IntervalStep)
    ensures
        step == spec_interval_step(polled),
{
    match polled {
        Some(KeyAction::Confirm) => IntervalStep::Proceed,
        Some(KeyAction::Quit) => IntervalStep::Quit,
        _ => IntervalStep::Wait,
    }
}

/// Runs a prompt on a recorded sequence of polls, from position `from` on
/// and without waiting in between. Returns how the prompt ended and the
/// position behind the last poll it read; `Wait` says that the record ran
/// out before the user decided.
pub fn replay_interval(polls: &Vec<Option<KeyAction>>, from: usize) -> (end: (IntervalStep, usize))
    requires
        from <= polls.len(),
    ensures
        end.0 == interval_outcome(polls@.skip(from as int)),
        end.1 == from + interval_reads(polls@.skip(from as int)),
        end.1 <= polls.len(),
{
    let mut i: usize = from;
    while i < polls.len()
        invariant
            from <= i <= polls.len(),
            interval_outcome(polls@.skip(from as int)) == interval_outcome(polls@.skip(i as int)),
            from + interval_reads(polls@.skip(from as int)) == i + interval_reads(
                polls@.skip(i as int),
            ),
        decreases polls.len() - i,
    {
        let step = handle_input_on_interval(polls[i]);
        proof {
            let tail = polls@.skip(i as int);
            assert(tail[0] == polls@[i as int]);
            assert(tail.drop_first() =~= polls@.skip(i + 1));
        }
        match step {
            IntervalStep::Wait => {},
            _ => {
                return (step, i + 1);
            },
        }
        i = i + 1;
    }
    (IntervalStep::Wait, i)
}

/// The prompt reads the polls in order and ends with the first that does not
/// wait: it is still waiting exactly when all polls wait; otherwise all polls
/// before the last one read wait, and the last one read decides.
pub proof fn lemma_interval_decides(polls: Seq<Option<KeyAction>>)
    ensures
        interval_reads(polls) <= polls.len(),
        interval_outcome(polls) == IntervalStep::Wait <==> all_wait(polls),
        interval_outcome(polls) == IntervalStep::Wait ==> interval_reads(polls) == polls.len(),
        interval_outcome(polls) != IntervalStep::Wait ==> {
            &&& interval_reads(polls) >= 1
            &&& spec_interval_step(polls[interval_reads(polls) - 1]) == interval_outcome(polls)
            &&& all_wait(polls.take(interval_reads(polls) - 1))
        },
    decreases polls.len(),
{
    if polls.len() > 0 {
        let tail = polls.drop_first();
        lemma_interval_decides(tail);
        if spec_interval_step(polls[0]) == IntervalStep::Wait {
            if all_wait(tail) {
                assert forall|i: int| 0 <= i < polls.len() implies spec_interval_step(
                    #[trigger] polls[i],
                ) == IntervalStep::Wait by {
                    if i > 0 {
                        assert(polls[i] == tail[i - 1]);
                    }
                }
            } else {
                let i = choose|i: int|
                    0 <= i < tail.len() && spec_interval_step(#[trigger] tail[i])
                        != IntervalStep::Wait;
                assert(polls[i + 1] == tail[i]);
            }
            if interval_outcome(polls) != IntervalStep::Wait {
                let n = interval_reads(polls);
                let m = interval_reads(tail);
                assert(n == m + 1);
                assert(polls[n - 1] == tail[m - 1]);
                let head = polls.take(n - 1);
                assert forall|i: int| 0 <= i < head.len() implies spec_interval_step(
                    #[trigger] head[i],
                ) == IntervalStep::Wait by {
                    if i > 0 {
                        assert(head[i] == tail.take(m - 1)[i - 1]);
                    }
                }
            }
        } else {
            assert(!all_wait(polls));
            assert(polls.take(0) =~= Seq::<Option<KeyAction>>::empty());
        }
    }
}

/// The prompt lets go without a quit only on a confirmation: where it ends
/// with `Proceed`, the last poll it read was `Confirm`, and no `Quit` and no
/// `Confirm` came before it.
pub proof fn only_confirm_proceeds(polls: Seq<Option<KeyAction>>)
    requires
        interval_outcome(polls) == IntervalStep::Proceed,
    ensures
        1 <= interval_reads(polls) <= polls.len(),
        polls[interval_reads(polls) - 1] == Some(KeyAction::Confirm),
        forall|j: int|
            0 <= j < interval_reads(polls) - 1 ==> #[trigger] polls[j] != Some(KeyAction::Confirm)
                && polls[j] != Some(KeyAction::Quit),
{
    lemma_interval_decides(polls);
    let n = interval_reads(polls);
    assert forall|j: int| 0 <= j < n - 1 implies #[trigger] polls[j] != Some(KeyAction::Confirm)
        && polls[j] != Some(KeyAction::Quit) by {
        assert(polls.take(n - 1)[j] == polls[j]);
    }
}

/// The prompt reports a quit only on `Quit`: where it ends with `Quit`, the
/// last poll it read was `Quit`, and no `Quit` and no `Confirm` came before
/// it.
pub proof fn only_quit_quits(polls: Seq<Option<KeyAction>>)
    requires
        interval_outcome(polls) == IntervalStep::Quit,
    ensures
        1 <= interval_reads(polls) <= polls.len(),
        polls[interval_reads(polls) - 1] == Some(KeyAction::Quit),
        forall|j: int|
            0 <= j < interval_reads(polls) - 1 ==> #[trigger] polls[j] != Some(KeyAction::Confirm)
                && polls[j] != Some(KeyAction::Quit),
{
    lemma_interval_decides(polls);
    let n = interval_reads(polls);
    assert forall|j: int| 0 <= j < n - 1 implies #[trigger] polls[j] != Some(KeyAction::Confirm)
        && polls[j] != Some(KeyAction::Quit) by {
        assert(polls.take(n - 1)[j] == polls[j]);
    }
}

/// Any number of polls that are empty, `Pause` or otherwise unrelated
/// leave a waiting prompt as it is: it keeps polling, and ends on what
/// follows them exactly as it would have ended without them.
pub proof fn unrelated_input_keeps_waiting(
    ignored: Seq<Option<KeyAction>>,
    rest: Seq<Option<KeyAction>>,
)
    requires
        forall|i: int|
            0 <= i < ignored.len() ==> #[trigger] ignored[i] != Some(KeyAction::Confirm)
                && ignored[i] != Some(KeyAction::Quit),
    ensures
        interval_outcome(ignored) == IntervalStep::Wait,
        interval_outcome(ignored + rest) == interval_outcome(rest),
        interval_reads(ignored + rest) == ignored.len() + interval_reads(rest),
    decreases ignored.len(),
{
    if ignored.len() == 0 {
        assert(ignored + rest =~= rest);
    } else {
        let tail = ignored.drop_first();
        assert forall|i: int| 0 <= i < tail.len() implies #[trigger] tail[i] != Some(
            KeyAction::Confirm,
        ) && tail[i] != Some(KeyAction::Quit) by {
            assert(tail[i] == ignored[i + 1]);
        }
        unrelated_input_keeps_waiting(tail, rest);
        let whole = ignored + rest;
        assert(whole[0] == ignored[0]);
        assert(whole.drop_first() =~= tail + rest);
    }
}

} // verus!
