//! What the terminal reports, and what the session asks of the program in
//! return.

use vstd::prelude::*;

verus! {

/// A key, as far as the bindings tell keys apart.
#[derive(Clone, Copy, Debug, PartialEq, Eq, Structural)]
pub enum Key {
    Char(char),
    Esc,
    Down,
    Up,
    Right,
    Left,
    Tab,
    Enter,
    /// Any key without a binding of its own.
    Other,
}

/// Whether a key went down, is held, or came up.
#[derive(Clone, Copy, Debug, PartialEq, Eq, Structural)]
pub enum KeyKind {
    Press,
    Repeat,
    Release,
}

/// One report of the terminal.
#[derive(Clone, Copy, Debug, PartialEq, Eq, Structural)]
pub enum Event {
    Key { key: Key, kind: KeyKind },
    /// A report that is no key: a resize, the mouse, focus, pasted text.
    Other,
}

/// What the program is to do after the session has handled an event.
#[derive(Clone, Copy, Debug, PartialEq, Eq, Structural)]
pub enum Effect {
    Nothing,
    /// Start fetching the chart, and hand the result back under this ticket.
    FetchChart { ticket: u64 },
}

} // verus!
