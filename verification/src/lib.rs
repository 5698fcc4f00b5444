//! A terminal multiplexer core: several independently buffered output windows
//! share one screen. A `Screen` owns a fixed table of windows arranged as a
//! binary tree; splitting a window allocates a new one beside or below it, and
//! every flush re-renders the full character grid.

pub mod bridge;
pub use bridge::Bridge;
pub mod colors;
pub use colors::Color;
pub mod render;
pub mod text;
pub mod window;

use vstd::prelude::*;
use window::{Priority, Window};
use window::buffer::{opened, sanitize, Buffer};
use render::render_screen;

verus! {

/// The ways a window-table operation can fail.
#[derive(Debug, Clone, Copy, PartialEq, Eq, Structural)]
pub enum ScreenError {
    /// The identity is out of range or its slot is unallocated.
    NotFound,
    /// The requested child slot of the window is already filled.
    AlreadyExists,
    /// The window table is full; no identity can be allocated.
    OutOfCapacity,
}

/// Maximum number of windows per screen.
pub const MAX_WIN: usize = 6;

/// Maximum terminal width the render grid supports.
pub const MAX_WIDTH: usize = 512;

/// Maximum terminal height the render grid supports.
pub const MAX_HEIGHT: usize = 254;

/// The child slot of `w` that a split with orientation `pr` fills.
pub open spec fn child_slot(w: Window, pr: Priority) -> Option<usize> {
    match pr {
        Priority::Vertical => w.left_child,
        Priority::Horizontal => w.down_child,
    }
}

/// `w` after a successful split with orientation `pr` created child `child`:
/// the matching child slot is filled, and the orientation is recorded only if
/// this was the window's first split.
pub open spec fn window_with_child(w: Window, pr: Priority, child: usize) -> Window {
    let p = if w.priority is None {
        Some(pr)
    } else {
        w.priority
    };
    match pr {
        Priority::Vertical => (Window { left_child: Some(child), priority: p, ..w }),
        Priority::Horizontal => (Window { down_child: Some(child), priority: p, ..w }),
    }
}

/// `w` is exactly what `Window::new(id)` creates.
pub open spec fn is_fresh_window(w: Window, id: int) -> bool {
    &&& w.id == id
    &&& w.name@ == window::default_window_name(id)
    &&& w.color == Color::Green
    &&& w.buffer.wf()
    &&& w.buffer.stored() == Seq::<Option<Seq<char>>>::empty()
    &&& w.buffer.open_line() is None
    &&& w.left_child is None
    &&& w.down_child is None
    &&& w.priority is None
}

/// Well-formedness of the window in slot `i` of a table with `count`
/// allocated slots: its identity matches its slot, its children were allocated
/// after it, a window that never split has no children, and a window that
/// split has the child its recorded orientation points at.
pub open spec fn wf_window(w: Window, i: int, count: int) -> bool {
    &&& w.id == i
    &&& w.buffer.wf()
    &&& w.left_child matches Some(c) ==> i < c < count
    &&& w.down_child matches Some(c) ==> i < c < count
    &&& w.priority is None ==> w.left_child is None && w.down_child is None
    &&& w.priority == Some(Priority::Vertical) ==> w.left_child is Some
    &&& w.priority == Some(Priority::Horizontal) ==> w.down_child is Some
}

/// A fully blank render grid: every cell a space with no color.
pub open spec fn blank_grid() -> Seq<Seq<(u8, Color)>> {
    Seq::new(254, |i: int| Seq::new(512, |j: int| (32u8, Color::Null)))
}

/// A screen: a fixed table of windows forming a binary layout tree rooted at
/// identity 0, an allocation counter, and the character grid the tree is
/// rendered into.
pub struct Screen {
    name: String,
    color: Color,
    windows: Vec<Option<Window>>,
    count: usize,
    width: usize,
    height: usize,
    grid: Vec<Vec<(u8, Color)>>,
}

impl Screen {
    /// The window table: slot `i` holds the window with identity `i`, if
    /// allocated.
    pub open(crate) spec fn windows_model(self) -> Seq<Option<Window>> {
        self.windows@
    }

    /// Number of allocated identities; also the next identity to assign.
    pub open(crate) spec fn spec_count(self) -> int {
        self.count as int
    }

    /// The screen's display title.
    pub open(crate) spec fn spec_name(self) -> Seq<char> {
        self.name@
    }

    /// The screen's own color tag.
    pub open(crate) spec fn spec_color(self) -> Color {
        self.color
    }

    /// The terminal width the screen renders for.
    pub open(crate) spec fn spec_width(self) -> int {
        self.width as int
    }

    /// The terminal height the screen renders for (one row is reserved for
    /// the screen title, the rest for the grid).
    pub open(crate) spec fn spec_height(self) -> int {
        self.height as int
    }

    /// The rendered character grid, row by row.
    pub open(crate) spec fn grid_model(self) -> Seq<Seq<(u8, Color)>> {
        Seq::new(self.grid@.len() as nat, |i: int| self.grid@[i]@)
    }

    /// `id` names an allocated window.
    pub open spec fn id_valid(self, id: int) -> bool {
        0 <= id < self.spec_count()
    }

    pub open spec fn wf(self) -> bool {
        &&& self.windows_model().len() == 6
        &&& 1 <= self.spec_count() <= 6
        &&& forall|i: int|
            0 <= i < 6 ==> ((#[trigger] self.windows_model()[i]) is Some <==> i
                < self.spec_count())
        &&& forall|i: int|
            0 <= i < self.spec_count() ==> wf_window(
                (#[trigger] self.windows_model()[i])->Some_0,
                i,
                self.spec_count(),
            )
        &&& 1 <= self.spec_width() <= 512
        &&& 1 <= self.spec_height() <= 254
        &&& self.grid_model().len() == 254
        &&& forall|i: int| 0 <= i < 254 ==> (#[trigger] self.grid_model()[i]).len() == 512
    }

    /// Everything except the grid is the same in `pre` and `post`.
    pub open spec fn same_except_grid(pre: Screen, post: Screen) -> bool {
        &&& post.windows_model() == pre.windows_model()
        &&& post.spec_count() == pre.spec_count()
        &&& post.spec_name() == pre.spec_name()
        &&& post.spec_color() == pre.spec_color()
        &&& post.spec_width() == pre.spec_width()
        &&& post.spec_height() == pre.spec_height()
    }

    /// Everything except the window table is the same in `pre` and `post`,
    /// and the table differs at most in the buffer of window `id`.
    pub open spec fn only_buffer_changed(pre: Screen, post: Screen, id: int) -> bool {
        &&& post.spec_count() == pre.spec_count()
        &&& post.spec_name() == pre.spec_name()
        &&& post.spec_color() == pre.spec_color()
        &&& post.spec_width() == pre.spec_width()
        &&& post.spec_height() == pre.spec_height()
        &&& pre.windows_model()[id] is Some
        &&& post.windows_model() == pre.windows_model().update(
            id,
            Some(
                (Window {
                    buffer: post.windows_model()[id]->Some_0.buffer,
                    ..pre.windows_model()[id]->Some_0
                }),
            ),
        )
    }

    /// A new screen: one fresh window with identity 0, titled "Screen",
    /// green, and an initial render pass over a blank grid at the largest
    /// supported terminal size.
    pub fn new() -> (s: Screen)
        ensures
            s.wf(),
            s.spec_count() == 1,
            s.spec_name() == "Screen"@,
            s.spec_color() == Color::Green,
            s.windows_model()[0] matches Some(w) && is_fresh_window(w, 0),
            s.spec_width() == 512,
            s.spec_height() == 254,
            s.grid_model() == render_screen(s.windows_model(), 512, 254, blank_grid()),
    {
        let mut windows: Vec<Option<Window>> = Vec::new();
        windows.push(Some(Window::new(0)));
        windows.push(None);
        windows.push(None);
        windows.push(None);
        windows.push(None);
        windows.push(None);
        let mut grid: Vec<Vec<(u8, Color)>> = Vec::new();
        while grid.len() < 254
            invariant
                grid@.len() <= 254,
                forall|i: int|
                    0 <= i < grid@.len() ==> (#[trigger] grid@[i])@ == Seq::new(
                        512,
                        |j: int| (32u8, Color::Null),
                    ),
            decreases 254 - grid@.len(),
        {
            grid.push(blank_row());
        }
        let mut s = Screen {
            name: "Screen".to_owned(),
            color: Color::Green,
            windows,
            count: 1,
            width: 512,
            height: 254,
            grid,
        };
        proof {
            assert(s.grid_model() =~~= blank_grid());
        }
        s.render_pass();
        s
    }

    /// A new screen (as `Screen::new`) whose title is `name`.
    pub fn name_screen(name: &str) -> (s: Screen)
        ensures
            s.wf(),
            s.spec_count() == 1,
            s.spec_name() == name@,
            s.spec_color() == Color::Green,
            s.windows_model()[0] matches Some(w) && is_fresh_window(w, 0),
            s.spec_width() == 512,
            s.spec_height() == 254,
            s.grid_model() == render_screen(s.windows_model(), 512, 254, blank_grid()),
    {
        let mut screen = Screen::new();
        screen.set_name(name);
        screen
    }

    /// Sets the screen's display title.
    pub fn set_name(&mut self, name: &str)
        ensures
            final(self).spec_name() == name@,
            final(self).spec_color() == old(self).spec_color(),
            final(self).windows_model() == old(self).windows_model(),
            final(self).spec_count() == old(self).spec_count(),
            final(self).spec_width() == old(self).spec_width(),
            final(self).spec_height() == old(self).spec_height(),
            final(self).grid_model() == old(self).grid_model(),
            old(self).wf() ==> final(self).wf(),
    {
        self.name = name.to_owned();
    }

    /// Sets the display name of window `id`, failing with `NotFound` for an
    /// invalid identity.
    pub fn set_window_name(&mut self, id: usize, name: &str) -> (r: Result<(), ScreenError>)
        requires
            old(self).wf(),
        ensures
            final(self).wf(),
            r is Ok <==> old(self).id_valid(id as int),
            !old(self).id_valid(id as int) ==> r == Err::<(), ScreenError>(ScreenError::NotFound)
                && *final(self) == *old(self),
            old(self).id_valid(id as int) ==> {
                &&& final(self).spec_name() == old(self).spec_name()
                &&& final(self).spec_color() == old(self).spec_color()
                &&& final(self).spec_count() == old(self).spec_count()
                &&& final(self).spec_width() == old(self).spec_width()
                &&& final(self).spec_height() == old(self).spec_height()
                &&& final(self).grid_model() == old(self).grid_model()
                &&& final(self).windows_model() == old(self).windows_model().update(
                    id as int,
                    Some(
                        (Window {
                            name: final(self).windows_model()[id as int]->Some_0.name,
                            ..old(self).windows_model()[id as int]->Some_0
                        }),
                    ),
                )
                &&& final(self).windows_model()[id as int]->Some_0.name@ == name@
            },
    {
        if let Err(e) = self.validate_id(id) {
            return Err(e);
        }
        match &mut self.windows[id] {
            Some(w) => {
                w.name = name.to_owned();
            },
            _ => {},
        }
        proof {
            assert(self.windows_model() =~= old(self).windows_model().update(
                id as int,
                Some(
                    (Window {
                        name: self.windows_model()[id as int]->Some_0.name,
                        ..old(self).windows_model()[id as int]->Some_0
                    }),
                ),
            ));
        }
        Ok(())
    }

    /// Sets the screen's own color tag.
    pub fn set_screen_color(&mut self, color: Color)
        ensures
            final(self).spec_color() == color,
            final(self).spec_name() == old(self).spec_name(),
            final(self).windows_model() == old(self).windows_model(),
            final(self).spec_count() == old(self).spec_count(),
            final(self).spec_width() == old(self).spec_width(),
            final(self).spec_height() == old(self).spec_height(),
            final(self).grid_model() == old(self).grid_model(),
            old(self).wf() ==> final(self).wf(),
    {
        self.color = color;
    }

    /// Sets the color tag of window `id`, failing with `NotFound` for an
    /// invalid identity.
    pub fn set_window_color(&mut self, id: usize, color: Color) -> (r: Result<(), ScreenError>)
        requires
            old(self).wf(),
        ensures
            final(self).wf(),
            r is Ok <==> old(self).id_valid(id as int),
            !old(self).id_valid(id as int) ==> r == Err::<(), ScreenError>(ScreenError::NotFound)
                && *final(self) == *old(self),
            old(self).id_valid(id as int) ==> {
                &&& final(self).spec_name() == old(self).spec_name()
                &&& final(self).spec_color() == old(self).spec_color()
                &&& final(self).spec_count() == old(self).spec_count()
                &&& final(self).spec_width() == old(self).spec_width()
                &&& final(self).spec_height() == old(self).spec_height()
                &&& final(self).grid_model() == old(self).grid_model()
                &&& final(self).windows_model() == old(self).windows_model().update(
                    id as int,
                    Some((Window { color, ..old(self).windows_model()[id as int]->Some_0 })),
                )
            },
    {
        if let Err(e) = self.validate_id(id) {
            return Err(e);
        }
        match &mut self.windows[id] {
            Some(w) => {
                w.color = color;
            },
            _ => {},
        }
        proof {
            assert(self.windows_model() =~= old(self).windows_model().update(
                id as int,
                Some((Window { color, ..old(self).windows_model()[id as int]->Some_0 })),
            ));
        }
        Ok(())
    }

    /// Number of allocated identities.
    pub fn count(&self) -> (c: usize)
        ensures
            c == self.spec_count(),
    {
        self.count
    }

    /// The screen's display title.
    pub fn get_name(&self) -> (n: &String)
        ensures
            n@ == self.spec_name(),
    {
        &self.name
    }

    /// The screen's own color tag.
    pub fn get_color(&self) -> (c: Color)
        ensures
            c == self.spec_color(),
    {
        self.color
    }

    /// Borrows the rendered grid: 254 rows of 512 cells, each a byte and a
    /// background color tag.
    pub fn grid(&self) -> (g: &Vec<Vec<(u8, Color)>>)
        ensures
            g@.len() == self.grid_model().len(),
            forall|i: int| 0 <= i < g@.len() ==> (#[trigger] g@[i])@ == self.grid_model()[i],
    {
        &self.grid
    }

    /// Borrows the window with identity `id`, if allocated.
    pub fn get_window(&self, id: usize) -> (r: Option<&Window>)
        requires
            self.wf(),
        ensures
            self.id_valid(id as int) ==> (r matches Some(w) && *w == self.windows_model()[
                id as int
            ]->Some_0),
            !self.id_valid(id as int) ==> r is None,
    {
        if id >= MAX_WIN {
            return None;
        }
        match &self.windows[id] {
            Some(w) => Some(w),
            None => None,
        }
    }

    /// Checks that `id` names an allocated window: `Ok` exactly when
    /// `0 <= id < count`, `Err(NotFound)` otherwise.
    fn validate_id(&self, id: usize) -> (r: Result<(), ScreenError>)
        requires
            self.wf(),
        ensures
            r is Ok <==> self.id_valid(id as int),
            r is Err ==> r == Err::<(), ScreenError>(ScreenError::NotFound),
    {
        if id >= MAX_WIN || self.windows[id].is_none() {
            return Err(ScreenError::NotFound);
        }
        Ok(())
    }

    /// Splits window `id` by a vertical cut: the new window takes the right
    /// half of its area. Returns the new identity.
    pub fn append_left_child(&mut self, id: usize) -> (r: Result<usize, ScreenError>)
        requires
            old(self).wf(),
        ensures
            final(self).wf(),
            split_outcome(*old(self), *final(self), id as int, Priority::Vertical, r),
    {
        self.append_child(id, Priority::Vertical)
    }

    /// Splits window `id` by a horizontal cut: the new window takes the
    /// bottom half of its area. Returns the new identity.
    pub fn append_down_child(&mut self, id: usize) -> (r: Result<usize, ScreenError>)
        requires
            old(self).wf(),
        ensures
            final(self).wf(),
            split_outcome(*old(self), *final(self), id as int, Priority::Horizontal, r),
    {
        self.append_child(id, Priority::Horizontal)
    }

    fn append_child(&mut self, id: usize, priority: Priority) -> (r: Result<usize, ScreenError>)
        requires
            old(self).wf(),
        ensures
            final(self).wf(),
            split_outcome(*old(self), *final(self), id as int, priority, r),
    {
        if let Err(e) = self.validate_id(id) {
            return Err(e);
        }
        if self.count >= MAX_WIN {
            return Err(ScreenError::OutOfCapacity);
        }
        let filled = match &self.windows[id] {
            Some(w) => match priority {
                Priority::Vertical => w.left_child.is_some(),
                Priority::Horizontal => w.down_child.is_some(),
            },
            None => false,
        };
        if filled {
            return Err(ScreenError::AlreadyExists);
        }
        let c = self.count;
        self.windows[c] = Some(Window::new(c));
        match &mut self.windows[id] {
            Some(w) => {
                match priority {
                    Priority::Vertical => {
                        w.left_child = Some(c);
                    },
                    Priority::Horizontal => {
                        w.down_child = Some(c);
                    },
                }
                if w.priority.is_none() {
                    w.priority = Some(priority);
                }
            },
            _ => {},
        }
        self.count = c + 1;
        proof {
            let pre = *old(self);
            let post = *self;
            assert(post.windows_model()[id as int] == Some(
                window_with_child(pre.windows_model()[id as int]->Some_0, priority, c),
            ));
            assert(is_fresh_window(post.windows_model()[c as int]->Some_0, c as int));
            assert forall|i: int| 0 <= i < post.spec_count() implies wf_window(
                (#[trigger] post.windows_model()[i])->Some_0,
                i,
                post.spec_count(),
            ) by {
                if i != id && i != c {
                    assert(wf_window(pre.windows_model()[i]->Some_0, i, pre.spec_count()));
                }
            }
        }
        Ok(c)
    }

    /// Appends `line` (sanitized) to the open line of window `id`'s buffer.
    pub fn print(&mut self, id: usize, line: &str) -> (r: Result<(), ScreenError>)
        requires
            old(self).wf(),
        ensures
            final(self).wf(),
            r is Ok <==> old(self).id_valid(id as int),
            !old(self).id_valid(id as int) ==> r == Err::<(), ScreenError>(ScreenError::NotFound)
                && *final(self) == *old(self),
            old(self).id_valid(id as int) ==> {
                &&& Screen::only_buffer_changed(*old(self), *final(self), id as int)
                &&& final(self).grid_model() == old(self).grid_model()
                &&& buffer_appended(
                    old(self).windows_model()[id as int]->Some_0.buffer,
                    final(self).windows_model()[id as int]->Some_0.buffer,
                    line@,
                )
            },
    {
        if let Err(e) = self.validate_id(id) {
            return Err(e);
        }
        match &mut self.windows[id] {
            Some(w) => {
                w.print(line);
            },
            _ => {},
        }
        proof {
            assert(self.windows_model() =~= old(self).windows_model().update(
                id as int,
                Some(
                    (Window {
                        buffer: self.windows_model()[id as int]->Some_0.buffer,
                        ..old(self).windows_model()[id as int]->Some_0
                    }),
                ),
            ));
        }
        Ok(())
    }
}

impl Screen {
    /// Seals the open line of window `id`'s buffer, then re-renders the whole
    /// grid for the current dimensions. Fails with `NotFound` for an invalid
    /// identity, changing nothing.
    pub fn flush(&mut self, id: usize) -> (r: Result<(), ScreenError>)
        requires
            old(self).wf(),
        ensures
            final(self).wf(),
            r is Ok <==> old(self).id_valid(id as int),
            !old(self).id_valid(id as int) ==> r == Err::<(), ScreenError>(ScreenError::NotFound)
                && *final(self) == *old(self),
            old(self).id_valid(id as int) ==> {
                &&& Screen::only_buffer_changed(*old(self), *final(self), id as int)
                &&& buffer_flushed(
                    old(self).windows_model()[id as int]->Some_0.buffer,
                    final(self).windows_model()[id as int]->Some_0.buffer,
                )
                &&& final(self).grid_model() == render_screen(
                    final(self).windows_model(),
                    old(self).spec_width(),
                    old(self).spec_height(),
                    old(self).grid_model(),
                )
            },
    {
        if let Err(e) = self.validate_id(id) {
            return Err(e);
        }
        proof {
            window::buffer::lemma_stored_bound(
                old(self).windows_model()[id as int]->Some_0.buffer,
            );
        }
        match &mut self.windows[id] {
            Some(w) => {
                w.flush();
            },
            _ => {},
        }
        proof {
            assert(self.windows_model() =~= old(self).windows_model().update(
                id as int,
                Some(
                    (Window {
                        buffer: self.windows_model()[id as int]->Some_0.buffer,
                        ..old(self).windows_model()[id as int]->Some_0
                    }),
                ),
            ));
        }
        self.render_pass();
        Ok(())
    }

    /// Appends `line` to window `id`'s open line and seals it in one step,
    /// re-rendering the grid. Fails with `NotFound` for an invalid identity,
    /// changing nothing.
    pub fn println(&mut self, id: usize, line: &str) -> (r: Result<(), ScreenError>)
        requires
            old(self).wf(),
        ensures
            final(self).wf(),
            r is Ok <==> old(self).id_valid(id as int),
            !old(self).id_valid(id as int) ==> r == Err::<(), ScreenError>(ScreenError::NotFound)
                && *final(self) == *old(self),
            old(self).id_valid(id as int) ==> {
                &&& Screen::only_buffer_changed(*old(self), *final(self), id as int)
                &&& buffer_printed_line(
                    old(self).windows_model()[id as int]->Some_0.buffer,
                    final(self).windows_model()[id as int]->Some_0.buffer,
                    line@,
                )
                &&& final(self).grid_model() == render_screen(
                    final(self).windows_model(),
                    old(self).spec_width(),
                    old(self).spec_height(),
                    old(self).grid_model(),
                )
            },
    {
        if let Err(e) = self.validate_id(id) {
            return Err(e);
        }
        let ghost pre = *old(self);
        // `print` cannot fail here: the identity was validated just above.
        let _ = self.print(id, line);
        let r = self.flush(id);
        proof {
            assert(self.windows_model() =~= pre.windows_model().update(
                id as int,
                Some(
                    (Window {
                        buffer: self.windows_model()[id as int]->Some_0.buffer,
                        ..pre.windows_model()[id as int]->Some_0
                    }),
                ),
            ));
        }
        r
    }

    /// Sets the terminal dimensions the next render pass will use. The grid
    /// itself is untouched until the next flush.
    pub fn set_dimensions(&mut self, width: usize, height: usize)
        requires
            old(self).wf(),
            1 <= width <= 512,
            1 <= height <= 254,
        ensures
            final(self).wf(),
            final(self).spec_width() == width,
            final(self).spec_height() == height,
            final(self).spec_name() == old(self).spec_name(),
            final(self).spec_color() == old(self).spec_color(),
            final(self).windows_model() == old(self).windows_model(),
            final(self).spec_count() == old(self).spec_count(),
            final(self).grid_model() == old(self).grid_model(),
    {
        self.width = width;
        self.height = height;
    }
}

impl Default for Screen {
    /// The same screen `Screen::new` creates.
    fn default() -> (s: Screen)
        ensures
            s.wf(),
            s.spec_count() == 1,
            s.spec_name() == "Screen"@,
            s.spec_color() == Color::Green,
            s.windows_model()[0] matches Some(w) && is_fresh_window(w, 0),
            s.spec_width() == 512,
            s.spec_height() == 254,
            s.grid_model() == render_screen(s.windows_model(), 512, 254, blank_grid()),
    {
        Screen::new()
    }
}

/// The buffer of a window after one `flush`: the open line is sealed onto the
/// stored lines (evicting the oldest if the ring was full) and a fresh line
/// is opened.
pub open spec fn buffer_flushed(b1: Buffer, b2: Buffer) -> bool {
    &&& b2.wf()
    &&& b2.open_line() is None
    &&& b2.stored() == (if b1.stored_len() < 63 {
        b1.stored()
    } else {
        b1.stored().drop_first()
    }).push(b1.open_line())
}

/// The buffer of a window after one `println`: the sanitized text extends the
/// open line, which is then sealed (evicting the oldest stored line if the
/// ring was full), and a fresh line is opened.
pub open spec fn buffer_printed_line(b1: Buffer, b2: Buffer, text: Seq<char>) -> bool {
    &&& b2.wf()
    &&& b2.open_line() is None
    &&& b2.stored() == (if b1.stored_len() < 63 {
        b1.stored()
    } else {
        b1.stored().drop_first()
    }).push(Some(opened(b1.open_line()) + sanitize(text)))
}

/// The buffer of a window after one `print`: sealed lines untouched, the
/// sanitized text appended to the open line.
pub open spec fn buffer_appended(
    b1: window::buffer::Buffer,
    b2: window::buffer::Buffer,
    text: Seq<char>,
) -> bool {
    &&& b2.wf()
    &&& b2.stored() == b1.stored()
    &&& b2.open_line() == Some(opened(b1.open_line()) + sanitize(text))
}

/// The outcome of requesting a split of window `id` with orientation `pr`:
/// the identity is validated first, so an invalid one fails with `NotFound`
/// whatever the table holds; otherwise `OutOfCapacity` on a full table,
/// otherwise `AlreadyExists` if that child slot is filled, otherwise the next
/// identity is allocated to a fresh window, the child reference is set, and
/// the orientation is recorded if this was the window's first split.
/// Failures leave the screen unchanged.
pub open spec fn split_outcome(
    pre: Screen,
    post: Screen,
    id: int,
    pr: Priority,
    r: Result<usize, ScreenError>,
) -> bool {
    if !pre.id_valid(id) {
        r == Err::<usize, ScreenError>(ScreenError::NotFound) && post == pre
    } else if pre.spec_count() >= 6 {
        r == Err::<usize, ScreenError>(ScreenError::OutOfCapacity) && post == pre
    } else if child_slot(pre.windows_model()[id]->Some_0, pr) is Some {
        r == Err::<usize, ScreenError>(ScreenError::AlreadyExists) && post == pre
    } else {
        let c = pre.spec_count();
        &&& r == Ok::<usize, ScreenError>(c as usize)
        &&& post.spec_count() == c + 1
        &&& post.windows_model().len() == 6
        &&& post.windows_model()[id] == Some(
            window_with_child(pre.windows_model()[id]->Some_0, pr, c as usize),
        )
        &&& post.windows_model()[c] matches Some(w) && is_fresh_window(w, c)
        &&& forall|i: int|
            0 <= i < 6 && i != id && i != c ==> post.windows_model()[i] == pre.windows_model()[i]
        &&& post.spec_name() == pre.spec_name()
        &&& post.spec_color() == pre.spec_color()
        &&& post.spec_width() == pre.spec_width()
        &&& post.spec_height() == pre.spec_height()
        &&& post.grid_model() == pre.grid_model()
    }
}

fn blank_row() -> (row: Vec<(u8, Color)>)
    ensures
        row@ == Seq::new(512, |j: int| (32u8, Color::Null)),
{
    let mut row: Vec<(u8, Color)> = Vec::new();
    while row.len() < 512
        invariant
            row@.len() <= 512,
            forall|j: int| 0 <= j < row@.len() ==> row@[j] == (32u8, Color::Null),
        decreases 512 - row@.len(),
    {
        row.push((32u8, Color::Null));
    }
    proof {
        assert(row@ =~= Seq::new(512, |j: int| (32u8, Color::Null)));
    }
    row
}

} // verus!
