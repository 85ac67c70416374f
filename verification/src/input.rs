//! The single-line text input at the bottom of the frame.

use vstd::prelude::*;

use crate::events::{KeyCode, KeyEvent};
use crate::text::chars_to_string;

verus! {

/// Whether a widget consumed a key or left it for the caller.
#[derive(Clone, Copy, PartialEq, Eq, Structural, Debug)]
pub enum InputResponse {
    Handled,
    Passthrough,
}

/// An editable line of text with a caret. The caret sits between cells:
/// position 0 is before the first character, `len` after the last.
pub struct TextInput {
    pub buffer: Vec<char>,
    pub caret: usize,
}

impl TextInput {
    /// The caret never leaves the buffer.
    pub open spec fn wf(self) -> bool {
        self.caret <= self.buffer@.len()
    }

    /// The keys the input consumes: plain character insertion, deletion to
    /// either side, and caret movement. Everything else (submit, quit,
    /// unknown keys) passes through to the caller.
    pub open spec fn consumes(k: KeyEvent) -> bool {
        !k.ctrl && match k.code {
            KeyCode::Char(_) => true,
            KeyCode::Backspace => true,
            KeyCode::Delete => true,
            KeyCode::Left => true,
            KeyCode::Right => true,
            KeyCode::Home => true,
            KeyCode::End => true,
            _ => false,
        }
    }

    /// The buffer after a consumed key.
    pub open spec fn text_after(text: Seq<char>, caret: int, k: KeyCode) -> Seq<char> {
        match k {
            KeyCode::Char(c) => text.insert(caret, c),
            KeyCode::Backspace => if caret > 0 {
                text.remove(caret - 1)
            } else {
                text
            },
            KeyCode::Delete => if caret < text.len() {
                text.remove(caret)
            } else {
                text
            },
            _ => text,
        }
    }

    /// The caret after a consumed key.
    pub open spec fn caret_after(text: Seq<char>, caret: int, k: KeyCode) -> int {
        match k {
            KeyCode::Char(_) => caret + 1,
            KeyCode::Backspace => if caret > 0 {
                caret - 1
            } else {
                0
            },
            KeyCode::Left => if caret > 0 {
                caret - 1
            } else {
                0
            },
            KeyCode::Right => if caret < text.len() {
                caret + 1
            } else {
                text.len() as int
            },
            KeyCode::Home => 0,
            KeyCode::End => text.len() as int,
            _ => caret,
        }
    }

    /// An empty input with the caret at the start.
    pub fn new() -> (t: TextInput)
        ensures
            t.wf(),
            t.buffer@ == Seq::<char>::empty(),
            t.caret == 0,
    {
        TextInput { buffer: Vec::new(), caret: 0 }
    }

    /// Apply one keystroke. Consumed keys edit the buffer or move the
    /// caret exactly as `text_after` and `caret_after` say; all others
    /// leave the input untouched and pass through.
    pub fn handle(&mut self, k: KeyEvent) -> (r: InputResponse)
        requires
            old(self).wf(),
            old(self).buffer@.len() < usize::MAX,
        ensures
            final(self).wf(),
            (r is Handled) == Self::consumes(k),
            Self::consumes(k) ==> {
                &&& final(self).buffer@ == Self::text_after(
                    old(self).buffer@,
                    old(self).caret as int,
                    k.code,
                )
                &&& final(self).caret == Self::caret_after(
                    old(self).buffer@,
                    old(self).caret as int,
                    k.code,
                )
            },
            !Self::consumes(k) ==> *final(self) == *old(self),
    {
        if k.ctrl {
            return InputResponse::Passthrough;
        }
        match k.code {
            KeyCode::Char(c) => {
                self.buffer.insert(self.caret, c);
                self.caret = self.caret + 1;
                InputResponse::Handled
            },
            KeyCode::Backspace => {
                if self.caret > 0 {
                    self.buffer.remove(self.caret - 1);
                    self.caret = self.caret - 1;
                }
                InputResponse::Handled
            },
            KeyCode::Delete => {
                if self.caret < self.buffer.len() {
                    self.buffer.remove(self.caret);
                }
                InputResponse::Handled
            },
            KeyCode::Left => {
                if self.caret > 0 {
                    self.caret = self.caret - 1;
                }
                InputResponse::Handled
            },
            KeyCode::Right => {
                if self.caret < self.buffer.len() {
                    self.caret = self.caret + 1;
                }
                InputResponse::Handled
            },
            KeyCode::Home => {
                self.caret = 0;
                InputResponse::Handled
            },
            KeyCode::End => {
                self.caret = self.buffer.len();
                InputResponse::Handled
            },
            _ => InputResponse::Passthrough,
        }
    }

    /// Hand the current contents to the caller and clear the line; used on
    /// submit.
    pub fn take(&mut self) -> (r: String)
        requires
            old(self).wf(),
        ensures
            final(self).wf(),
            r@ == old(self).buffer@,
            final(self).buffer@ == Seq::<char>::empty(),
            final(self).caret == 0,
    {
        let s = chars_to_string(&self.buffer);
        self.buffer.clear();
        self.caret = 0;
        s
    }

    /// The current contents, for drawing the input line.
    pub fn contents(&self) -> (r: String)
        ensures
            r@ == self.buffer@,
    {
        chars_to_string(&self.buffer)
    }
}

} // verus!
