//! From raw terminal input to events.
//!
//! The designated quit key asks to leave, after which the input stream ends.
//! Every other character key and every pointer press is an activation.
//! Anything else is dropped without a trace.

use crate::state::Event;
use vstd::prelude::*;

verus! {

/// The key that asks to leave.
pub const QUIT_KEY: char = 'q';

/// What the terminal delivered, reduced to what the mapping reads.
#[derive(Clone, Copy, Debug, PartialEq, Eq, Structural)]
pub enum RawInput {
    /// A character key was pressed.
    Char(char),
    /// A pointer button was pressed.
    PointerPress,
    /// Any other input: other keys, pointer releases and moves, unreadable
    /// bytes.
    Other,
}

/// The event that a raw input stands for, if any.
pub open spec fn classified(raw: RawInput) -> Option<Event> {
    match raw {
        RawInput::Char(key) => if key == QUIT_KEY {
            Some(Event::Quit)
        } else {
            Some(Event::Activation)
        },
        RawInput::PointerPress => Some(Event::Activation),
        RawInput::Other => None,
    }
}

/// Maps a raw input to the event it stands for; `None` means that the input
/// is dropped. A raw input never stands for a timer firing.
pub fn classify(raw: RawInput) -> (event: Option<Event>)
    ensures
        event == classified(raw),
        event != Some(Event::TimerFired),
        event is None <==> raw is Other,
{
    match raw {
        RawInput::Char(key) => {
            if key == QUIT_KEY {
                Some(Event::Quit)
            } else {
                Some(Event::Activation)
            }
        },
        RawInput::PointerPress => Some(Event::Activation),
        RawInput::Other => None,
    }
}

/// Whether the input stream ends once `event` has been emitted: it does after
/// the request to leave and after nothing else.
pub fn ends_input(event: Event) -> (ends: bool)
    ensures
        ends == (event is Quit),
{
    match event {
        Event::Quit => true,
        _ => false,
    }
}

} // verus!
