//! One output window: an identity, a display name, a title-bar color, a ring
//! buffer of recent lines, and up to two children by identity forming a
//! binary layout tree.

pub mod buffer;

use vstd::prelude::*;
use crate::colors::Color;
use crate::text::{decimal_digits, decimal_string, str_chars, chars_to_string};
use buffer::Buffer;

verus! {

/// How a window's area was divided by its first split: `Vertical` places the
/// child beside it, `Horizontal` places the child below it.
#[derive(Debug, Clone, Copy, PartialEq, Eq, Structural)]
pub enum Priority {
    Vertical,
    Horizontal,
}

/// The display name of a freshly created window with identity `id`.
pub open spec fn default_window_name(id: int) -> Seq<char> {
    "Window "@ + decimal_digits(id)
}

/// One window of a screen. Children are recorded by identity and resolved
/// through the owning screen's table, not owned directly.
#[derive(Debug)]
pub struct Window {
    pub id: usize,
    pub name: String,
    pub color: Color,
    pub buffer: Buffer,
    pub left_child: Option<usize>,
    pub down_child: Option<usize>,
    pub priority: Option<Priority>,
}

impl Window {
    /// A fresh window: default name, green title bar, empty buffer, no
    /// children, no split recorded.
    pub fn new(id: usize) -> (w: Window)
        ensures
            w.id == id,
            w.name@ == default_window_name(id as int),
            w.color == Color::Green,
            w.buffer.wf(),
            w.buffer.stored_len() == 0,
            w.buffer.stored() == Seq::<Option<Seq<char>>>::empty(),
            w.buffer.open_line() is None,
            w.left_child is None,
            w.down_child is None,
            w.priority is None,
    {
        let prefix = str_chars("Window ");
        let mut name = chars_to_string(&prefix);
        let num = decimal_string(id);
        name.append(num.as_str());
        Window {
            id,
            name,
            color: Color::Green,
            buffer: Buffer::new(),
            left_child: None,
            down_child: None,
            priority: None,
        }
    }

    /// Appends `line` to the window's open line (see `Buffer::append`).
    pub fn print(&mut self, line: &str)
        requires
            old(self).buffer.wf(),
        ensures
            final(self).buffer.wf(),
            final(self).buffer.stored() == old(self).buffer.stored(),
            final(self).buffer.stored_len() == old(self).buffer.stored_len(),
            final(self).buffer.open_line() == Some(
                buffer::opened(old(self).buffer.open_line()) + buffer::sanitize(line@),
            ),
            *final(self) == (Window { buffer: final(self).buffer, ..*old(self) }),
    {
        self.buffer.append(line);
    }

    /// Seals the window's open line (see `Buffer::flush`).
    pub fn flush(&mut self)
        requires
            old(self).buffer.wf(),
        ensures
            final(self).buffer.wf(),
            final(self).buffer.open_line() is None,
            final(self).buffer.stored_len() == if old(self).buffer.stored_len() < 63 {
                old(self).buffer.stored_len() + 1
            } else {
                63int
            },
            old(self).buffer.stored_len() < 63 ==> final(self).buffer.stored() == old(
                self,
            ).buffer.stored().push(old(self).buffer.open_line()),
            old(self).buffer.stored_len() == 63 ==> final(self).buffer.stored() == old(
                self,
            ).buffer.stored().drop_first().push(old(self).buffer.open_line()),
            *final(self) == (Window { buffer: final(self).buffer, ..*old(self) }),
    {
        self.buffer.flush();
    }

    /// The window's identity.
    pub fn get_id(&self) -> (id: usize)
        ensures
            id == self.id,
    {
        self.id
    }

    /// The window's display name.
    pub fn get_name(&self) -> (name: &String)
        ensures
            name == &self.name,
    {
        &self.name
    }
}

} // verus!
