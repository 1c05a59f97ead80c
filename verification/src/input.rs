//! Text-entry dialog state: an editable buffer with a cursor.

use vstd::prelude::*;

use crate::events::KeyInput;
use crate::text::push_char;

verus! {


/// What one raw key does to a buffer and its cursor.
pub open spec fn spec_after_key(text: Seq<char>, cursor: int, key: KeyInput) -> (Seq<char>, int) {
    match key {
        KeyInput::Char(c) => if text.len() < usize::MAX {
            (text.insert(cursor, c), cursor + 1)
        } else {
            (text, cursor)
        },
        KeyInput::Backspace => if cursor > 0 {
            (text.remove(cursor - 1), cursor - 1)
        } else {
            (text, cursor)
        },
        KeyInput::Delete => if cursor < text.len() {
            (text.remove(cursor), cursor)
        } else {
            (text, cursor)
        },
        KeyInput::Left => (text, if cursor > 0 { cursor - 1 } else { 0 }),
        KeyInput::Right => (
            text,
            if cursor < text.len() {
                cursor + 1
            } else {
                text.len() as int
            },
        ),
        KeyInput::Home => (text, 0),
        KeyInput::End => (text, text.len() as int),
        KeyInput::Other => (text, cursor),
    }
}

#[derive(Clone, Debug)]
pub struct InputDialogState {
    buffer: Vec<char>,
    cursor: usize,
}

impl Default for InputDialogState {
    fn default() -> (r: Self)
        ensures
            r.text() == Seq::<char>::empty(),
            r.cursor_spec() == 0,
            r.wf(),
    {
        InputDialogState { buffer: Vec::new(), cursor: 0 }
    }
}

impl InputDialogState {
    /// The characters currently in the buffer.
    pub closed spec fn text(self) -> Seq<char> {
        self.buffer@
    }

    pub closed spec fn cursor_spec(self) -> int {
        self.cursor as int
    }

    pub open spec fn wf(self) -> bool {
        0 <= self.cursor_spec() <= self.text().len()
    }

    /// A dialog opened over existing content, with the cursor at its end.
    pub fn new(text: String) -> (r: Self)
        ensures
            r.text() == text@,
            r.cursor_spec() == text@.len(),
            r.wf(),
    {
        let s = text.as_str();
        let n = s.unicode_len();
        let mut buffer: Vec<char> = Vec::new();
        let mut i: usize = 0;
        while i < n
            invariant
                n == s@.len(),
                i <= n,
                buffer@ == s@.take(i as int),
            decreases n - i,
        {
            let c = s.get_char(i);
            buffer.push(c);
            proof {
                assert(buffer@ =~= s@.take(i + 1));
            }
            i = i + 1;
        }
        proof {
            assert(s@.take(n as int) =~= s@);
        }
        InputDialogState { buffer, cursor: n }
    }

    /// The buffer's content as a string.
    pub fn input(&self) -> (r: String)
        ensures
            r@ == self.text(),
    {
        let mut out = String::new();
        let mut i: usize = 0;
        while i < self.buffer.len()
            invariant
                i <= self.buffer@.len(),
                out@ == self.buffer@.take(i as int),
            decreases self.buffer@.len() - i,
        {
            push_char(&mut out, self.buffer[i]);
            proof {
                assert(out@ =~= self.buffer@.take(i + 1));
            }
            i = i + 1;
        }
        proof {
            assert(self.buffer@.take(self.buffer@.len() as int) =~= self.buffer@);
        }
        out
    }

    pub fn is_empty(&self) -> (r: bool)
        ensures
            r == (self.text().len() == 0),
    {
        self.buffer.len() == 0
    }

    pub fn clear_input(&mut self)
        ensures
            final(self).text() == Seq::<char>::empty(),
            final(self).cursor_spec() == 0,
            final(self).wf(),
    {
        self.buffer = Vec::new();
        self.cursor = 0;
    }

    /// The cursor's position in characters, for the renderer.
    pub fn cursor_index(&self) -> (r: usize)
        ensures
            r == self.cursor_spec(),
    {
        self.cursor
    }

    /// Apply one raw key to the buffer: printable characters insert at the
    /// cursor, editing keys delete or move, anything else is ignored.
    pub fn handle_key_event(&mut self, key: KeyInput)
        requires
            old(self).wf(),
        ensures
            final(self).wf(),
            final(self).text() == spec_after_key(old(self).text(), old(self).cursor_spec(), key).0,
            final(self).cursor_spec() == spec_after_key(
                old(self).text(),
                old(self).cursor_spec(),
                key,
            ).1,
    {
        match key {
            KeyInput::Char(c) => {
                if self.buffer.len() < usize::MAX {
                    self.buffer.insert(self.cursor, c);
                    self.cursor = self.cursor + 1;
                }
            },
            KeyInput::Backspace => {
                if self.cursor > 0 {
                    self.buffer.remove(self.cursor - 1);
                    self.cursor = self.cursor - 1;
                }
            },
            KeyInput::Delete => {
                if self.cursor < self.buffer.len() {
                    self.buffer.remove(self.cursor);
                }
            },
            KeyInput::Left => {
                if self.cursor > 0 {
                    self.cursor = self.cursor - 1;
                }
            },
            KeyInput::Right => {
                if self.cursor < self.buffer.len() {
                    self.cursor = self.cursor + 1;
                }
            },
            KeyInput::Home => {
                self.cursor = 0;
            },
            KeyInput::End => {
                self.cursor = self.buffer.len();
            },
            KeyInput::Other => {},
        }
    }
}

} // verus!
