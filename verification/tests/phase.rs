use pomodoro::action::KeyAction;
use pomodoro::countdown::{Countdown, TickEffect};
use pomodoro::interval::{handle_input_on_interval, IntervalStep};
use pomodoro::phase::{advance, Phase, Settings};

#[test]
fn default_settings_are_twenty_five_and_five_minutes() {
    assert_eq!(Settings::default(), Settings { work_sec: 1500, break_sec: 300 });
}

#[test]
fn phases_follow_in_a_cycle() {
    assert_eq!(Phase::WorkTimer.next(), Phase::BreakPrompt);
    assert_eq!(Phase::BreakPrompt.next(), Phase::BreakTimer);
    assert_eq!(Phase::BreakTimer.next(), Phase::WorkPrompt);
    assert_eq!(Phase::WorkPrompt.next(), Phase::WorkTimer);
}

#[test]
fn only_countdowns_have_seconds() {
    let settings = Settings { work_sec: 40, break_sec: 7 };
    assert_eq!(Phase::WorkTimer.seconds(&settings), Some(40));
    assert_eq!(Phase::BreakTimer.seconds(&settings), Some(7));
    assert_eq!(Phase::BreakPrompt.seconds(&settings), None);
    assert_eq!(Phase::WorkPrompt.seconds(&settings), None);
}

#[test]
fn prompts_poll_faster_than_countdowns() {
    assert_eq!(Phase::WorkTimer.poll_period_millis(), 1000);
    assert_eq!(Phase::BreakTimer.poll_period_millis(), 1000);
    assert_eq!(Phase::BreakPrompt.poll_period_millis(), 100);
    assert_eq!(Phase::WorkPrompt.poll_period_millis(), 100);
}

#[test]
fn quit_ends_the_session_from_every_phase() {
    for phase in [Phase::WorkTimer, Phase::BreakPrompt, Phase::BreakTimer, Phase::WorkPrompt] {
        assert_eq!(advance(phase, true), None);
        assert_eq!(advance(phase, false), Some(phase.next()));
    }
}

// Drives the session on a recorded sequence of polls, as a terminal front end
// would on a key queue, until `limit` phases have completed or one was quit.
// Gives the phases entered, what was displayed, and whether the user quit.
fn drive(
    settings: &Settings,
    polls: &[Option<KeyAction>],
    limit: usize,
) -> (Vec<Phase>, Vec<String>, bool) {
    let mut queue = polls.iter().copied();
    let mut phase = Phase::WorkTimer;
    let mut entered = vec![phase];
    let mut shown = Vec::new();
    for _ in 0..limit {
        let quited = match phase.seconds(settings) {
            Some(seconds) => {
                let mut timer = Countdown::new(seconds);
                while timer.is_running() {
                    if let TickEffect::Render(text) = timer.tick(queue.next().flatten()) {
                        shown.push(text);
                    }
                }
                timer.quited
            }
            None => {
                shown.push(format!("{:?}", phase));
                loop {
                    let polled = queue.next().expect("the record decides every prompt");
                    match handle_input_on_interval(polled) {
                        IntervalStep::Proceed => break false,
                        IntervalStep::Quit => break true,
                        IntervalStep::Wait => {}
                    }
                }
            }
        };
        match advance(phase, quited) {
            Some(next) => {
                phase = next;
                entered.push(phase);
            }
            None => return (entered, shown, true),
        }
    }
    (entered, shown, false)
}

#[test]
fn two_second_session_completes_a_cycle_and_starts_over() {
    let settings = Settings { work_sec: 2, break_sec: 2 };
    let confirm = Some(KeyAction::Confirm);
    // two ticks of work, a confirmation, two ticks of break, a confirmation
    let polls = vec![None, None, None, confirm, None, None, confirm];
    let (entered, shown, quited) = drive(&settings, &polls, 4);
    assert!(!quited);
    assert_eq!(
        entered,
        vec![
            Phase::WorkTimer,
            Phase::BreakPrompt,
            Phase::BreakTimer,
            Phase::WorkPrompt,
            Phase::WorkTimer
        ]
    );
    assert_eq!(shown, vec!["00:02", "00:01", "BreakPrompt", "00:02", "00:01", "WorkPrompt"]);
}

#[test]
fn quit_in_the_break_ends_the_session_there() {
    let settings = Settings { work_sec: 1, break_sec: 3 };
    let polls = vec![None, Some(KeyAction::Confirm), None, Some(KeyAction::Quit), None];
    let (entered, shown, quited) = drive(&settings, &polls, 8);
    assert!(quited);
    assert_eq!(entered, vec![Phase::WorkTimer, Phase::BreakPrompt, Phase::BreakTimer]);
    assert_eq!(shown, vec!["00:01", "BreakPrompt", "00:03"]);
}

#[test]
fn quit_at_a_prompt_ends_the_session_there() {
    let settings = Settings { work_sec: 1, break_sec: 1 };
    let polls = vec![None, Some(KeyAction::Pause), None, Some(KeyAction::Quit)];
    let (entered, shown, quited) = drive(&settings, &polls, 8);
    assert!(quited);
    assert_eq!(entered, vec![Phase::WorkTimer, Phase::BreakPrompt]);
    assert_eq!(shown, vec!["00:01", "BreakPrompt"]);
}

#[test]
fn session_without_quit_keeps_cycling() {
    let settings = Settings { work_sec: 1, break_sec: 1 };
    let round = [None, Some(KeyAction::Confirm)];
    let polls: Vec<Option<KeyAction>> = round.iter().copied().cycle().take(40).collect();
    let (entered, _, quited) = drive(&settings, &polls, 20);
    assert!(!quited);
    assert_eq!(entered.len(), 21);
    for (i, phase) in entered.iter().enumerate() {
        assert_eq!(*phase, entered[i % 4]);
    }
    assert_eq!(entered[20], Phase::WorkTimer);
}

#[test]
fn four_completions_lead_back() {
    for phase in [Phase::WorkTimer, Phase::BreakPrompt, Phase::BreakTimer, Phase::WorkPrompt] {
        assert_eq!(phase.next().next().next().next(), phase);
        assert_ne!(phase.next(), phase);
        assert_ne!(phase.next().next(), phase);
        assert_ne!(phase.next().next().next(), phase);
    }
}

#[test]
fn a_phase_of_zero_seconds_is_skipped() {
    let settings = Settings { work_sec: 0, break_sec: 2 };
    let polls = vec![Some(KeyAction::Confirm), None, None, Some(KeyAction::Quit)];
    let (entered, shown, quited) = drive(&settings, &polls, 8);
    assert!(quited);
    assert_eq!(
        entered,
        vec![Phase::WorkTimer, Phase::BreakPrompt, Phase::BreakTimer, Phase::WorkPrompt]
    );
    assert_eq!(shown, vec!["BreakPrompt", "00:02", "00:01", "WorkPrompt"]);
}
