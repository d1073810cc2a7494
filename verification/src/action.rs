//! Key actions: what a key press means to the timer.

use vstd::prelude::*;

verus! {

/// A semantic signal derived from one key press.
#[derive(Clone, Copy, Debug, PartialEq, Eq, Structural)]
pub enum KeyAction {
    /// Leave the program.
    Quit,
    /// Freeze or resume the running countdown.
    Pause,
    /// Confirm a prompt.
    Confirm,
    /// Nothing the timer acts on.
    Nothing,
}

/// The action that a typed character stands for.
pub open spec fn spec_key_to_action(key: char) -> KeyAction {
    if key == 'q' {
        KeyAction::Quit
    } else if key == 'p' {
        KeyAction::Pause
    } else if key == 'o' {
        KeyAction::Confirm
    } else {
        KeyAction::Nothing
    }
}

/// What the key reader puts on the queue for a typed character: its action
/// where it has one, nothing for a key without meaning.
pub open spec fn spec_key_event(key: char) -> Option<KeyAction> {
    if spec_key_to_action(key) == KeyAction::Nothing {
        None
    } else {
        Some(spec_key_to_action(key))
    }
}

/// What a countdown makes of one poll of the key queue: only `Quit` and
/// `Pause` reach it; an empty queue and every other action count as `Nothing`.
pub open spec fn spec_timer_action(polled: Option<KeyAction>) -> KeyAction {
    match polled {
        Some(KeyAction::Quit) => KeyAction::Quit,
        Some(KeyAction::Pause) => KeyAction::Pause,
        _ => KeyAction::Nothing,
    }
}

/// Maps a typed character to its action: `q` quits, `p` pauses, `o` confirms,
/// and every other character is `Nothing`.
pub fn key_to_action(key: char) -> (action: KeyAction)
    ensures
        action == spec_key_to_action(key),
{
    if key == 'q' {
        KeyAction::Quit
    } else if key == 'p' {
        KeyAction::Pause
    } else if key == 'o' {
        KeyAction::Confirm
    } else {
        KeyAction::Nothing
    }
}

/// The action to put on the key queue for a typed character, or `None`
/// where the key means nothing: such keys are never queued, so that they
/// cannot use up a poll.
pub fn key_event(key: char) -> (event: Option<KeyAction>)
    ensures
        event == spec_key_event(key),
        event != Some(KeyAction::Nothing),
{
    match key_to_action(key) {
        KeyAction::Nothing => None,
        action => Some(action),
    }
}

/// Filters one poll of the key queue for a running countdown. `polled` is
/// `None` when the queue was empty or closed.
pub fn handle_input_on_timer(polled: Option<KeyAction>) -> (action: KeyAction)
    ensures
        action == spec_timer_action(polled),
{
    match polled {
        Some(KeyAction::Quit) => KeyAction::Quit,
        Some(KeyAction::Pause) => KeyAction::Pause,
        _ => KeyAction::Nothing,
    }
}

} // verus!
