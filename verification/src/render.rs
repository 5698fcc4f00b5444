//! The recursive layout and render pass: the window tree partitions the
//! terminal rectangle, children claiming the far (right or bottom) half of
//! their parent's remaining space, and each window paints its visible lines
//! and a title bar into the character grid.

use vstd::prelude::*;
use vstd::string::StringExecFns;
use crate::colors::Color;
use crate::window::{Priority, Window};
use crate::window::buffer::opened;
use crate::text::{char_byte, char_to_byte, decimal_digits, decimal_string, str_chars};
use crate::Screen;

verus! {

/// The title bar text of window `w` with identity `id`.
pub open spec fn title_text(w: Window, id: int) -> Seq<char> {
    w.name@ + " ID: "@ + decimal_digits(id)
}

/// The line shown on relative content row `r` of a pane with `rows` content
/// rows: the sealed lines in order, skipping the oldest ones when there are
/// more lines than rows so the most recently sealed lines are the ones shown.
/// A row past the last line shows the placeholder; a line sealed with no
/// content shows as empty.
pub open spec fn visible_line(stored: Seq<Option<Seq<char>>>, rows: int, r: int) -> Seq<char> {
    let n = stored.len() as int;
    let first = if n > rows {
        n - rows
    } else {
        0
    };
    if first + r < n {
        opened(stored[first + r])
    } else {
        seq!['-', '-', ' ']
    }
}

/// The cell at absolute column `j` of a content row of a pane occupying
/// columns `[w0, w1)`: the rightmost column is a blank cell in the window's
/// color, the rest show the line's characters (blank past its end) with no
/// color.
pub open spec fn content_cell(line: Seq<char>, w0: int, w1: int, color: Color, j: int) -> (
    u8,
    Color,
) {
    if j == w1 - 1 {
        (32u8, color)
    } else if j - w0 < line.len() {
        (char_byte(line[j - w0]), Color::Null)
    } else {
        (32u8, Color::Null)
    }
}

/// The cell at absolute column `j` of a title row starting at column `w0`:
/// the title's characters (blank past its end), all on the window's color.
pub open spec fn title_cell(title: Seq<char>, w0: int, color: Color, j: int) -> (u8, Color) {
    if j - w0 < title.len() {
        (char_byte(title[j - w0]), color)
    } else {
        (32u8, color)
    }
}

/// `row` with columns `[w0, w1)` overwritten by the content cells of `line`.
pub open spec fn content_row(
    row: Seq<(u8, Color)>,
    line: Seq<char>,
    w0: int,
    w1: int,
    color: Color,
) -> Seq<(u8, Color)> {
    Seq::new(
        row.len(),
        |j: int|
            if w0 <= j < w1 {
                content_cell(line, w0, w1, color, j)
            } else {
                row[j]
            },
    )
}

/// `row` with columns `[w0, w1)` overwritten by the title cells of `title`.
pub open spec fn title_row(row: Seq<(u8, Color)>, title: Seq<char>, w0: int, w1: int, color: Color) -> Seq<
    (u8, Color),
> {
    Seq::new(
        row.len(),
        |j: int|
            if w0 <= j < w1 {
                title_cell(title, w0, color, j)
            } else {
                row[j]
            },
    )
}

/// The grid after window `w` paints its own rectangle `[w0, w1) x [h0, h1)`:
/// its visible lines on the rows above the last one, and its title bar on the
/// last row. A rectangle with no rows left paints nothing.
pub open spec fn paint_pane(
    grid: Seq<Seq<(u8, Color)>>,
    w: Window,
    id: int,
    w0: int,
    w1: int,
    h0: int,
    h1: int,
) -> Seq<Seq<(u8, Color)>> {
    if h0 < h1 {
        let rows = h1 - h0 - 1;
        Seq::new(
            grid.len(),
            |i: int|
                if h0 <= i < h1 - 1 {
                    content_row(
                        grid[i],
                        visible_line(w.buffer.stored(), rows, i - h0),
                        w0,
                        w1,
                        w.color,
                    )
                } else if i == h1 - 1 {
                    title_row(grid[i], title_text(w, id), w0, w1, w.color)
                } else {
                    grid[i]
                },
        )
    } else {
        grid
    }
}

/// The grid after the subtree rooted at window `id` renders into the
/// rectangle `[w0, w1) x [h0, h1)`. Children claim the far half of the
/// current rectangle first — the right half for a vertical split, the bottom
/// half for a horizontal one, in the order fixed by the recorded orientation —
/// and the window paints what remains.
pub open spec fn render_node(
    wins: Seq<Option<Window>>,
    id: int,
    w0: int,
    w1: int,
    h0: int,
    h1: int,
    grid: Seq<Seq<(u8, Color)>>,
) -> Seq<Seq<(u8, Color)>>
    decreases wins.len() - id,
{
    if 0 <= id < wins.len() && wins[id] is Some {
        let w = wins[id]->Some_0;
        match w.priority {
            Some(Priority::Vertical) => {
                let mw = (w0 + w1) / 2;
                let g1 = if w.left_child is Some && id < w.left_child->Some_0 < wins.len() {
                    render_node(wins, w.left_child->Some_0 as int, mw, w1, h0, h1, grid)
                } else {
                    grid
                };
                if w.down_child is Some && id < w.down_child->Some_0 < wins.len() {
                    let mh = (h0 + h1) / 2;
                    let g2 = render_node(wins, w.down_child->Some_0 as int, w0, mw, mh, h1, g1);
                    paint_pane(g2, w, id, w0, mw, h0, mh)
                } else {
                    paint_pane(g1, w, id, w0, mw, h0, h1)
                }
            },
            Some(Priority::Horizontal) => {
                let mh = (h0 + h1) / 2;
                let g1 = if w.down_child is Some && id < w.down_child->Some_0 < wins.len() {
                    render_node(wins, w.down_child->Some_0 as int, w0, w1, mh, h1, grid)
                } else {
                    grid
                };
                if w.left_child is Some && id < w.left_child->Some_0 < wins.len() {
                    let mw = (w0 + w1) / 2;
                    let g2 = render_node(wins, w.left_child->Some_0 as int, mw, w1, h0, mh, g1);
                    paint_pane(g2, w, id, w0, mw, h0, mh)
                } else {
                    paint_pane(g1, w, id, w0, w1, h0, mh)
                }
            },
            None => paint_pane(grid, w, id, w0, w1, h0, h1),
        }
    } else {
        grid
    }
}

/// The grid after a full render pass for a `width` x `height` terminal: the
/// top terminal row is reserved for the screen title, and the tree renders
/// into the remaining `height - 1` rows, starting at the root window.
pub open spec fn render_screen(
    wins: Seq<Option<Window>>,
    width: int,
    height: int,
    grid: Seq<Seq<(u8, Color)>>,
) -> Seq<Seq<(u8, Color)>> {
    render_node(wins, 0, 0, width, 0, height - 1, grid)
}

impl Screen {
    /// Renders the whole window tree into the grid for the screen's current
    /// dimensions.
    pub(crate) fn render_pass(&mut self)
        requires
            old(self).wf(),
        ensures
            final(self).wf(),
            Screen::same_except_grid(*old(self), *final(self)),
            final(self).grid_model() == render_screen(
                old(self).windows_model(),
                old(self).spec_width(),
                old(self).spec_height(),
                old(self).grid_model(),
            ),
    {
        let w = self.width();
        let h = self.height();
        self.render_node_exec(0, 0, w, 0, h - 1);
    }

    fn render_node_exec(&mut self, id: usize, w0: usize, w1: usize, h0: usize, h1: usize)
        requires
            old(self).wf(),
            old(self).id_valid(id as int),
            w0 <= w1 <= 512,
            h0 <= h1 <= 254,
        ensures
            final(self).wf(),
            Screen::same_except_grid(*old(self), *final(self)),
            final(self).grid_model() == render_node(
                old(self).windows_model(),
                id as int,
                w0 as int,
                w1 as int,
                h0 as int,
                h1 as int,
                old(self).grid_model(),
            ),
        decreases 6 - id,
    {
        let (prio, lc, dc) = match &self.windows[id] {
            Some(w) => (w.priority, w.left_child, w.down_child),
            None => (None, None, None),
        };
        let mut ew = w1;
        let mut eh = h1;
        match prio {
            Some(Priority::Vertical) => {
                let mw = (w0 + w1) / 2;
                if let Some(lcid) = lc {
                    self.render_node_exec(lcid, mw, w1, h0, h1);
                }
                ew = mw;
                if let Some(dcid) = dc {
                    let mh = (h0 + h1) / 2;
                    self.render_node_exec(dcid, w0, ew, mh, h1);
                    eh = mh;
                }
            },
            Some(Priority::Horizontal) => {
                let mh = (h0 + h1) / 2;
                if let Some(dcid) = dc {
                    self.render_node_exec(dcid, w0, w1, mh, h1);
                }
                eh = mh;
                if let Some(lcid) = lc {
                    let mw = (w0 + w1) / 2;
                    self.render_node_exec(lcid, mw, w1, h0, eh);
                    ew = mw;
                }
            },
            None => {},
        }
        self.paint_pane_exec(id, w0, ew, h0, eh);
    }

    fn paint_pane_exec(&mut self, id: usize, w0: usize, w1: usize, h0: usize, h1: usize)
        requires
            old(self).wf(),
            old(self).id_valid(id as int),
            w0 <= w1 <= 512,
            h0 <= h1 <= 254,
        ensures
            final(self).wf(),
            Screen::same_except_grid(*old(self), *final(self)),
            final(self).grid_model() == paint_pane(
                old(self).grid_model(),
                old(self).windows_model()[id as int]->Some_0,
                id as int,
                w0 as int,
                w1 as int,
                h0 as int,
                h1 as int,
            ),
    {
        let ghost pre = *old(self);
        let ghost win = pre.windows_model()[id as int]->Some_0;
        if h1 == h0 {
            return ;
        }
        let rows = h1 - h0 - 1;
        let (blen, color) = match &self.windows[id] {
            Some(w) => (w.buffer.len(), w.color),
            None => (0, Color::Null),
        };
        let first = if blen > rows {
            blen - rows
        } else {
            0
        };
        let mut r: usize = 0;
        while r < rows
            invariant
                pre.wf(),
                self.wf(),
                Screen::same_except_grid(pre, *self),
                pre.id_valid(id as int),
                win == pre.windows_model()[id as int]->Some_0,
                color == win.color,
                blen == win.buffer.stored_len(),
                first == if blen > rows {
                    blen - rows
                } else {
                    0
                },
                w0 <= w1 <= 512,
                h0 <= h1 <= 254,
                h0 < h1,
                rows == h1 - h0 - 1,
                r <= rows,
                self.grid_model() == Seq::new(
                    pre.grid_model().len(),
                    |i: int|
                        if h0 <= i < h0 + r {
                            content_row(
                                pre.grid_model()[i],
                                visible_line(win.buffer.stored(), rows as int, i - h0),
                                w0 as int,
                                w1 as int,
                                win.color,
                            )
                        } else {
                            pre.grid_model()[i]
                        },
                ),
            decreases rows - r,
        {
            let line_chars: Vec<char>;
            if first + r < blen {
                let mut tmp: Vec<char> = Vec::new();
                match &self.windows[id] {
                    Some(w) => {
                        match w.buffer.line(first + r) {
                            Some(s) => {
                                tmp = str_chars(s.as_str());
                            },
                            None => {},
                        }
                    },
                    None => {},
                }
                line_chars = tmp;
                proof {
                    assert(line_chars@ == visible_line(win.buffer.stored(), rows as int, r as int));
                }
            } else {
                line_chars = str_chars("-- ");
                proof {
                    reveal_strlit("-- ");
                    assert("-- "@ =~= seq!['-', '-', ' ']);
                    assert(line_chars@ == visible_line(win.buffer.stored(), rows as int, r as int));
                }
            }
            self.paint_content_row(h0 + r, w0, w1, &line_chars, color);
            proof {
                assert(self.grid_model() =~= Seq::new(
                    pre.grid_model().len(),
                    |i: int|
                        if h0 <= i < h0 + r + 1 {
                            content_row(
                                pre.grid_model()[i],
                                visible_line(win.buffer.stored(), rows as int, i - h0),
                                w0 as int,
                                w1 as int,
                                win.color,
                            )
                        } else {
                            pre.grid_model()[i]
                        },
                ));
            }
            r = r + 1;
        }
        let mut title: String = match &self.windows[id] {
            Some(w) => w.get_name().clone(),
            None => String::new(),
        };
        title.append(" ID: ");
        let num = decimal_string(id);
        title.append(num.as_str());
        proof {
            assert(title@ == win.name@ + " ID: "@ + decimal_digits(id as int));
        }
        let tchars = str_chars(title.as_str());
        self.paint_title_row(h1 - 1, w0, w1, &tchars, color);
        proof {
            assert(self.grid_model() =~~= paint_pane(
                pre.grid_model(),
                win,
                id as int,
                w0 as int,
                w1 as int,
                h0 as int,
                h1 as int,
            ));
        }
    }

    /// Overwrites columns `[w0, w1)` of grid row `i` with the content cells
    /// of `line`.
    fn paint_content_row(&mut self, i: usize, w0: usize, w1: usize, line: &Vec<char>, color: Color)
        requires
            old(self).wf(),
            i < 254,
            w0 <= w1 <= 512,
        ensures
            final(self).wf(),
            Screen::same_except_grid(*old(self), *final(self)),
            final(self).grid_model() == old(self).grid_model().update(
                i as int,
                content_row(
                    old(self).grid_model()[i as int],
                    line@,
                    w0 as int,
                    w1 as int,
                    color,
                ),
            ),
    {
        let ghost pre = *old(self);
        let mut j = w0;
        while j < w1
            invariant
                pre.wf(),
                self.wf(),
                Screen::same_except_grid(pre, *self),
                i < 254,
                w0 <= j <= w1 <= 512,
                forall|i2: int|
                    0 <= i2 < 254 && i2 != i ==> self.grid_model()[i2] == pre.grid_model()[i2],
                forall|j2: int|
                    0 <= j2 < 512 && !(w0 <= j2 < j) ==> self.grid_model()[i as int][j2]
                        == pre.grid_model()[i as int][j2],
                forall|j2: int|
                    w0 <= j2 < j ==> self.grid_model()[i as int][j2] == content_cell(
                        line@,
                        w0 as int,
                        w1 as int,
                        color,
                        j2,
                    ),
            decreases w1 - j,
        {
            let cell: (u8, Color) = if j == w1 - 1 {
                (32u8, color)
            } else if j - w0 < line.len() {
                (char_to_byte(line[j - w0]), Color::Null)
            } else {
                (32u8, Color::Null)
            };
            proof {
                assert(self.grid@.len() == 254);
                assert(self.grid_model()[i as int].len() == 512);
                assert(self.grid_model()[i as int] == self.grid@[i as int]@);
            }
            self.grid[i][j] = cell;
            proof {
                assert forall|i2: int| 0 <= i2 < 254 implies (#[trigger] self.grid_model()[
                    i2
                ]).len() == 512 by {
                    if i2 != i as int {
                        assert(self.grid_model()[i2] == pre.grid_model()[i2]);
                    }
                }
            }
            j = j + 1;
        }
        proof {
            assert(self.grid_model() =~~= pre.grid_model().update(
                i as int,
                content_row(pre.grid_model()[i as int], line@, w0 as int, w1 as int, color),
            ));
        }
    }

    /// Overwrites columns `[w0, w1)` of grid row `i` with the title cells of
    /// `title`.
    fn paint_title_row(&mut self, i: usize, w0: usize, w1: usize, title: &Vec<char>, color: Color)
        requires
            old(self).wf(),
            i < 254,
            w0 <= w1 <= 512,
        ensures
            final(self).wf(),
            Screen::same_except_grid(*old(self), *final(self)),
            final(self).grid_model() == old(self).grid_model().update(
                i as int,
                title_row(old(self).grid_model()[i as int], title@, w0 as int, w1 as int, color),
            ),
    {
        let ghost pre = *old(self);
        let mut j = w0;
        while j < w1
            invariant
                pre.wf(),
                self.wf(),
                Screen::same_except_grid(pre, *self),
                i < 254,
                w0 <= j <= w1 <= 512,
                forall|i2: int|
                    0 <= i2 < 254 && i2 != i ==> self.grid_model()[i2] == pre.grid_model()[i2],
                forall|j2: int|
                    0 <= j2 < 512 && !(w0 <= j2 < j) ==> self.grid_model()[i as int][j2]
                        == pre.grid_model()[i as int][j2],
                forall|j2: int|
                    w0 <= j2 < j ==> self.grid_model()[i as int][j2] == title_cell(
                        title@,
                        w0 as int,
                        color,
                        j2,
                    ),
            decreases w1 - j,
        {
            let cell: (u8, Color) = if j - w0 < title.len() {
                (char_to_byte(title[j - w0]), color)
            } else {
                (32u8, color)
            };
            proof {
                assert(self.grid@.len() == 254);
                assert(self.grid_model()[i as int].len() == 512);
                assert(self.grid_model()[i as int] == self.grid@[i as int]@);
            }
            self.grid[i][j] = cell;
            proof {
                assert forall|i2: int| 0 <= i2 < 254 implies (#[trigger] self.grid_model()[
                    i2
                ]).len() == 512 by {
                    if i2 != i as int {
                        assert(self.grid_model()[i2] == pre.grid_model()[i2]);
                    }
                }
            }
            j = j + 1;
        }
        proof {
            assert(self.grid_model() =~~= pre.grid_model().update(
                i as int,
                title_row(pre.grid_model()[i as int], title@, w0 as int, w1 as int, color),
            ));
        }
    }

    /// The terminal width the screen renders for.
    pub fn width(&self) -> (w: usize)
        ensures
            w == self.spec_width(),
    {
        self.width
    }

    /// The terminal height the screen renders for.
    pub fn height(&self) -> (h: usize)
        ensures
            h == self.spec_height(),
    {
        self.height
    }
}

} // verus!
