use vstd::prelude::*;
use crate::action::Action;

verus! {

/// The key of a key press, reduced to what the key bindings distinguish.
#[derive(Clone, Copy, Debug, PartialEq, Eq)]
pub enum KeyCode {
    /// A printable character key.
    Char(char),
    /// The forward-tab key.
    Tab,
    /// The backward-tab key (shift+tab).
    BackTab,
    /// Any other key; never bound to an action.
    Other,
}

/// One key press: the key together with whether control was held.
#[derive(Clone, Copy, Debug, PartialEq, Eq)]
pub struct KeyPress {
    pub code: KeyCode,
    pub ctrl: bool,
}

/// One item of the multiplexed input queue: a key press, the fixed-period
/// redraw tick, or a terminal resize notification.
#[derive(Clone, Copy, Debug, PartialEq, Eq)]
pub enum Event {
    Key(KeyPress),
    Tick,
    Resize(u16, u16),
}

/// The key bindings: which action, if any, an event asks for.
///
/// `q` and control-`c` quit, tab and shift+tab move between tabs, `r`
/// refreshes; every other key, the tick and a resize ask for nothing
/// (tick and resize only force the next natural redraw).
pub open spec fn action_for(e: Event) -> Option<Action> {
    match e {
        Event::Key(k) => match k.code {
            KeyCode::Char(c) => if c == 'q' {
                Some(Action::Quit)
            } else if c == 'c' && k.ctrl {
                Some(Action::Quit)
            } else if c == 'r' {
                Some(Action::Refresh)
            } else {
                None
            },
            KeyCode::Tab => Some(Action::NextTab),
            KeyCode::BackTab => Some(Action::PrevTab),
            KeyCode::Other => None,
        },
        Event::Tick => None,
        Event::Resize(_, _) => None,
    }
}

} // verus!
