//! The session state machine: the single-threaded cooperative driver's
//! decisions. Each step classifies one poll result from the keyboard and
//! says what the loop around it must do: sleep, quit, send the composed
//! message, refresh history, or adjust the echo on the terminal. A redraw is
//! conceptually instantaneous, so it finishes within the step that asked for
//! it and the session is observed only as idle or terminated.

use vstd::prelude::*;

use crate::editor::ComposeBuffer;
use crate::editor::backspaced;

verus! {

/// Quit keybinding: end-of-text, Ctrl-C.
pub const QUIT_BYTE: u8 = 3;

/// Submit keybinding: carriage return, Enter.
pub const SUBMIT_BYTE: u8 = 13;

/// Refresh keybinding: device-control-two, Ctrl-R.
pub const REFRESH_BYTE: u8 = 18;

/// Backspace keybinding: delete.
pub const BACKSPACE_BYTE: u8 = 127;

/// The observable state of the session loop.
pub enum SessionState {
    Idle,
    Terminated,
}

/// One poll of the keyboard device, as the loop sees it: no byte pending, a
/// transient read fault, or one raw input byte.
pub enum InputEvent {
    NoByte,
    ReadFault,
    Byte(u8),
}

/// What the loop around the state machine must do after a step. The loop
/// performs the outside work: sleeping, sending to the gateway, fetching and
/// redrawing, and writing echo bytes to the terminal.
pub enum Action {
    /// Nothing pending: sleep the fixed poll interval.
    Sleep,
    /// Transient read fault: ignore it and poll again at once.
    Ignore,
    /// Leave the loop and restore the terminal.
    Quit,
    /// Send the carried text to the gateway, then erase the rest of the
    /// input line and reprint the prompt marker.
    Send(String),
    /// Fetch recent history and redraw the full screen.
    Refresh,
    /// Erase the last echoed glyph (cursor left twice, overwrite with a
    /// space).
    EraseGlyph,
    /// Echo the carried character after the prompt.
    Echo(char),
}

/// The session loop's own state: where it stands and the message being
/// composed.
pub struct Session {
    pub state: SessionState,
    pub buffer: ComposeBuffer,
}

impl Session {
    /// A fresh session: idle, with an empty compose buffer.
    pub fn new() -> (s: Session)
        ensures
            s.state is Idle,
            s.buffer@ == Seq::<char>::empty(),
    {
        Session { state: SessionState::Idle, buffer: ComposeBuffer::new() }
    }

    /// One step of the session loop: classify one poll result and decide.
    ///
    /// No byte and read faults leave the session untouched; the quit byte
    /// terminates; the submit byte hands out the whole buffer and empties
    /// it; the refresh byte changes nothing locally; the backspace byte
    /// shortens the buffer by one character when it has any; every other
    /// byte is appended literally and echoed.
    pub fn step(&mut self, ev: InputEvent) -> (a: Action)
        requires
            old(self).state is Idle,
        ensures
            match ev {
                InputEvent::NoByte => *final(self) == *old(self) && a is Sleep,
                InputEvent::ReadFault => *final(self) == *old(self) && a is Ignore,
                InputEvent::Byte(b) => {
                    &&& (b == QUIT_BYTE ==> final(self).state is Terminated
                        && final(self).buffer@ == old(self).buffer@ && a is Quit)
                    &&& (b == SUBMIT_BYTE ==> final(self).state is Idle
                        && final(self).buffer@ == Seq::<char>::empty()
                        && (a matches Action::Send(t) && t@ == old(self).buffer@))
                    &&& (b == REFRESH_BYTE ==> *final(self) == *old(self) && a is Refresh)
                    &&& (b == BACKSPACE_BYTE ==> final(self).state is Idle
                        && final(self).buffer@ == backspaced(old(self).buffer@)
                        && a is EraseGlyph)
                    &&& (b != QUIT_BYTE && b != SUBMIT_BYTE && b != REFRESH_BYTE && b
                        != BACKSPACE_BYTE ==> final(self).state is Idle
                        && final(self).buffer@ == old(self).buffer@.push(b as char)
                        && (a matches Action::Echo(c) && c == b as char))
                },
            },
    {
        match ev {
            InputEvent::NoByte => Action::Sleep,
            InputEvent::ReadFault => Action::Ignore,
            InputEvent::Byte(b) => {
                if b == QUIT_BYTE {
                    self.state = SessionState::Terminated;
                    Action::Quit
                } else if b == SUBMIT_BYTE {
                    let text = self.buffer.take_and_clear();
                    Action::Send(text)
                } else if b == REFRESH_BYTE {
                    Action::Refresh
                } else if b == BACKSPACE_BYTE {
                    self.buffer.backspace();
                    Action::EraseGlyph
                } else {
                    let c = b as char;
                    self.buffer.append(c);
                    Action::Echo(c)
                }
            },
        }
    }
}

} // verus!
