//! The screen buffer: the grid that views draw into, the grid that is on the
//! terminal, the clip stack that confines drawing, and the diff that turns one
//! grid into the other.
use vstd::prelude::*;
use crate::draw::{Cell, blank, blank_cell};
use crate::geometry::{Point, Rect};
use crate::palette::Attr;

verus! {

/// One write to the terminal: move the cursor to `(x, y)`, set `attr`, and print `text`.
#[derive(Debug)]
pub struct Run {
    pub x: u16,
    pub y: u16,
    pub attr: Attr,
    pub text: Vec<char>,
}

/// Whether a run writes the cell `(x, y)`.
pub open spec fn run_covers(r: Run, x: int, y: int) -> bool {
    r.y == y && r.x <= x < r.x + r.text@.len()
}

/// Whether some run of `runs` writes the cell `(x, y)`.
pub open spec fn covered(runs: Seq<Run>, x: int, y: int) -> bool {
    exists|i: int| 0 <= i < runs.len() && #[trigger] run_covers(runs[i], x, y)
}

proof fn lemma_covered_push(runs: Seq<Run>, r: Run)
    ensures
        forall|x: int, y: int|
            #[trigger] covered(runs.push(r), x, y) <==> (covered(runs, x, y) || run_covers(r, x, y)),
{
    assert forall|x: int, y: int|
        #[trigger] covered(runs.push(r), x, y) <==> (covered(runs, x, y) || run_covers(r, x, y)) by {
        if covered(runs, x, y) {
            let i = choose|i: int| 0 <= i < runs.len() && #[trigger] run_covers(runs[i], x, y);
            assert(runs.push(r)[i] == runs[i]);
        }
        if run_covers(r, x, y) {
            assert(runs.push(r)[runs.len() as int] == r);
        }
        if covered(runs.push(r), x, y) {
            let i = choose|i: int|
                0 <= i < runs.push(r).len() && #[trigger] run_covers(runs.push(r)[i], x, y);
            if i < runs.len() {
                assert(runs.push(r)[i] == runs[i]);
            }
        }
    }
}

/// The character grid of a terminal: what views drew (`buffer`) and what the
/// terminal shows (`prev_buffer`), both `height` rows of `width` cells.
pub struct Terminal {
    buffer: Vec<Vec<Cell>>,
    prev_buffer: Vec<Vec<Cell>>,
    width: u16,
    height: u16,
    clip_stack: Vec<Rect>,
    cursor: Option<Point>,
    active_view_bounds: Option<Rect>,
}

impl Terminal {
    pub closed spec fn wf(&self) -> bool {
        &&& self.buffer@.len() == self.height
        &&& self.prev_buffer@.len() == self.height
        &&& forall|y: int| 0 <= y < self.height ==> (#[trigger] self.buffer@[y])@.len() == self.width
        &&& forall|y: int|
            0 <= y < self.height ==> (#[trigger] self.prev_buffer@[y])@.len() == self.width
    }

    pub closed spec fn spec_width(&self) -> int {
        self.width as int
    }

    pub closed spec fn spec_height(&self) -> int {
        self.height as int
    }

    /// The cell that views drew at `(x, y)`.
    pub closed spec fn cell(&self, x: int, y: int) -> Cell {
        self.buffer@[y]@[x]
    }

    /// The cell that the terminal shows at `(x, y)`.
    pub closed spec fn prev_cell(&self, x: int, y: int) -> Cell {
        self.prev_buffer@[y]@[x]
    }

    /// The rectangles pushed on the clip stack, each already cut to the one below it.
    pub closed spec fn clips(&self) -> Seq<Rect> {
        self.clip_stack@
    }

    /// The hardware cursor that the views asked for, if any.
    pub closed spec fn cursor_request(&self) -> Option<Point> {
        self.cursor
    }

    pub closed spec fn active_bounds(&self) -> Option<Rect> {
        self.active_view_bounds
    }

    pub open spec fn in_screen(&self, x: int, y: int) -> bool {
        0 <= x < self.spec_width() && 0 <= y < self.spec_height()
    }

    /// Whether a write to `(x, y)` lands: the cell is on the screen and inside
    /// every rectangle of the clip stack.
    pub closed spec fn writable(&self, x: int, y: int) -> bool {
        &&& 0 <= x < self.width
        &&& 0 <= y < self.height
        &&& (self.clip_stack@.len() == 0 || self.clip_stack@.last().spec_contains(x, y))
    }

    /// `post` is this terminal after drawing: the same shape, clip stack, shown
    /// grid and cursor, and a drawn grid that differs only where writes land.
    pub open spec fn drawn_into(&self, post: Terminal) -> bool {
        &&& post.wf()
        &&& post.spec_width() == self.spec_width()
        &&& post.spec_height() == self.spec_height()
        &&& post.clips() == self.clips()
        &&& post.cursor_request() == self.cursor_request()
        &&& post.active_bounds() == self.active_bounds()
        &&& forall|x: int, y: int| #[trigger] post.writable(x, y) == self.writable(x, y)
        &&& forall|x: int, y: int| #[trigger] post.prev_cell(x, y) == self.prev_cell(x, y)
        &&& forall|x: int, y: int|
            self.in_screen(x, y) && !self.writable(x, y) ==> #[trigger] post.cell(x, y)
                == self.cell(x, y)
    }

    pub proof fn lemma_drawn_into_refl(&self)
        requires
            self.wf(),
        ensures
            self.drawn_into(*self),
    {
    }

    pub proof fn lemma_drawn_into_trans(a: Terminal, b: Terminal, c: Terminal)
        requires
            a.drawn_into(b),
            b.drawn_into(c),
        ensures
            a.drawn_into(c),
    {
        assert forall|x: int, y: int|
            a.in_screen(x, y) && !a.writable(x, y) implies #[trigger] c.cell(x, y) == a.cell(x, y) by {
            assert(b.writable(x, y) == a.writable(x, y));
        }
    }

    /// A terminal of `width` by `height` blank cells, with nothing on the clip stack.
    pub fn new(width: u16, height: u16) -> (r: Terminal)
        ensures
            r.wf(),
            r.spec_width() == width,
            r.spec_height() == height,
            r.clips().len() == 0,
            r.cursor_request().is_none(),
            r.active_bounds().is_none(),
            forall|x: int, y: int|
                r.in_screen(x, y) ==> #[trigger] r.cell(x, y) == blank_cell() && r.prev_cell(x, y)
                    == blank_cell(),
    {
        let mut buffer: Vec<Vec<Cell>> = Vec::new();
        let mut prev_buffer: Vec<Vec<Cell>> = Vec::new();
        let mut y: u16 = 0;
        while y < height
            invariant
                y <= height,
                buffer@.len() == y,
                prev_buffer@.len() == y,
                forall|k: int| 0 <= k < y ==> (#[trigger] buffer@[k])@ == Seq::new(width as nat, |i: int| blank_cell()),
                forall|k: int| 0 <= k < y ==> (#[trigger] prev_buffer@[k])@ == Seq::new(width as nat, |i: int| blank_cell()),
            decreases height - y,
        {
            buffer.push(blank_row(width));
            prev_buffer.push(blank_row(width));
            y = y + 1;
        }
        Terminal {
            buffer,
            prev_buffer,
            width,
            height,
            clip_stack: Vec::new(),
            cursor: None,
            active_view_bounds: None,
        }
    }

    /// The number of columns and rows.
    pub fn size(&self) -> (r: (u16, u16))
        ensures
            r.0 == self.spec_width(),
            r.1 == self.spec_height(),
    {
        (self.width, self.height)
    }

    /// The drawn cell at `(x, y)`, if that is on the screen.
    pub fn cell_at(&self, x: u16, y: u16) -> (r: Option<Cell>)
        requires
            self.wf(),
        ensures
            r == if self.in_screen(x as int, y as int) {
                Some(self.cell(x as int, y as int))
            } else {
                None
            },
    {
        if x < self.width && y < self.height {
            Some(self.buffer[y as usize][x as usize])
        } else {
            None
        }
    }

    /// The shown cell at `(x, y)`, if that is on the screen.
    pub fn shown_cell_at(&self, x: u16, y: u16) -> (r: Option<Cell>)
        requires
            self.wf(),
        ensures
            r == if self.in_screen(x as int, y as int) {
                Some(self.prev_cell(x as int, y as int))
            } else {
                None
            },
    {
        if x < self.width && y < self.height {
            Some(self.prev_buffer[y as usize][x as usize])
        } else {
            None
        }
    }

    fn admits(&self, x: i32, y: i32) -> (r: bool)
        ensures
            r == self.writable(x as int, y as int),
    {
        if x < 0 || y < 0 || x >= self.width as i32 || y >= self.height as i32 {
            return false;
        }
        let n = self.clip_stack.len();
        if n == 0 {
            true
        } else {
            let top = self.clip_stack[n - 1];
            top.a.x as i32 <= x && x < top.b.x as i32 && top.a.y as i32 <= y && y < top.b.y as i32
        }
    }

    fn set_cell(&mut self, x: usize, y: usize, c: Cell)
        requires
            old(self).wf(),
            x < old(self).spec_width(),
            y < old(self).spec_height(),
        ensures
            final(self).wf(),
            final(self).spec_width() == old(self).spec_width(),
            final(self).spec_height() == old(self).spec_height(),
            final(self).clips() == old(self).clips(),
            final(self).cursor_request() == old(self).cursor_request(),
            final(self).active_bounds() == old(self).active_bounds(),
            forall|a: int, b: int| #[trigger] final(self).writable(a, b) == old(self).writable(a, b),
            forall|a: int, b: int| #[trigger] final(self).prev_cell(a, b) == old(self).prev_cell(a, b),
            forall|a: int, b: int|
                old(self).in_screen(a, b) ==> #[trigger] final(self).cell(a, b) == if a == x && b
                    == y {
                    c
                } else {
                    old(self).cell(a, b)
                },
    {
        self.buffer[y].set(x, c);
        assert forall|b: int| 0 <= b < self.height implies (#[trigger] self.buffer@[b])@.len()
            == self.width by {
            if b != y {
                assert(self.buffer@[b] == old(self).buffer@[b]);
            }
        }
    }

    fn write_span(&mut self, x: i32, y: i32, cells: &[Cell])
        requires
            old(self).wf(),
            -200000 <= x <= 200000,
            -200000 <= y <= 200000,
        ensures
            old(self).drawn_into(*final(self)),
            forall|a: int, b: int|
                old(self).in_screen(a, b) ==> #[trigger] final(self).cell(a, b) == if b == y && x
                    <= a < x + cells@.len() && old(self).writable(a, b) {
                    cells@[a - x]
                } else {
                    old(self).cell(a, b)
                },
    {
        let len = cells.len();
        let n: usize = if x >= self.width as i32 {
            0
        } else if len as u64 > (self.width as i32 - x) as u64 {
            (self.width as i32 - x) as usize
        } else {
            len
        };
        let mut i: usize = 0;
        while i < n
            invariant
                len == cells@.len(),
                n <= len,
                n <= 300000,
                x + n <= self.width || n == 0,
                i <= n,
                -200000 <= x <= 200000,
                -200000 <= y <= 200000,
                self.wf(),
                old(self).drawn_into(*self),
                forall|a: int, b: int|
                    old(self).in_screen(a, b) ==> #[trigger] self.cell(a, b) == if b == y && x <= a
                        < x + i && old(self).writable(a, b) {
                        cells@[a - x]
                    } else {
                        old(self).cell(a, b)
                    },
            decreases n - i,
        {
            let xx = x + i as i32;
            if self.admits(xx, y) {
                self.set_cell(xx as usize, y as usize, cells[i]);
            }
            i = i + 1;
        }
        assert forall|a: int, b: int|
            old(self).in_screen(a, b) implies #[trigger] self.cell(a, b) == if b == y && x <= a < x
                + cells@.len() && old(self).writable(a, b) {
                cells@[a - x]
            } else {
                old(self).cell(a, b)
            } by {
            if b == y && x + i <= a < x + cells@.len() && old(self).writable(a, b) {
                assert(old(self).writable(a, b) ==> a < old(self).spec_width());
                assert(false);
            }
        }
    }

    /// Writes one cell; a write off the screen or outside the clip region is dropped.
    pub fn write_cell(&mut self, x: u16, y: u16, cell: Cell)
        requires
            old(self).wf(),
        ensures
            old(self).drawn_into(*final(self)),
            forall|a: int, b: int|
                old(self).in_screen(a, b) ==> #[trigger] final(self).cell(a, b) == if a == x && b
                    == y && old(self).writable(a, b) {
                    cell
                } else {
                    old(self).cell(a, b)
                },
    {
        if self.admits(x as i32, y as i32) {
            self.set_cell(x as usize, y as usize, cell);
        }
    }

    /// Writes a row of cells from `(x, y)` rightwards; each write off the screen
    /// or outside the clip region is dropped.
    pub fn write_line(&mut self, x: u16, y: u16, cells: &[Cell])
        requires
            old(self).wf(),
        ensures
            old(self).drawn_into(*final(self)),
            forall|a: int, b: int|
                old(self).in_screen(a, b) ==> #[trigger] final(self).cell(a, b) == if b == y && x
                    <= a < x + cells@.len() && old(self).writable(a, b) {
                    cells@[a - x]
                } else {
                    old(self).cell(a, b)
                },
    {
        self.write_span(x as i32, y as i32, cells);
    }

    /// As `write_line`, from a position that may lie left of or above the screen.
    pub fn write_line_at(&mut self, x: i16, y: i16, cells: &[Cell])
        requires
            old(self).wf(),
        ensures
            old(self).drawn_into(*final(self)),
            forall|a: int, b: int|
                old(self).in_screen(a, b) ==> #[trigger] final(self).cell(a, b) == if b == y && x
                    <= a < x + cells@.len() && old(self).writable(a, b) {
                    cells@[a - x]
                } else {
                    old(self).cell(a, b)
                },
    {
        self.write_span(x as i32, y as i32, cells);
    }

    /// Blanks every drawn cell, whatever the clip region.
    pub fn clear(&mut self)
        requires
            old(self).wf(),
        ensures
            final(self).wf(),
            final(self).spec_width() == old(self).spec_width(),
            final(self).spec_height() == old(self).spec_height(),
            final(self).clips() == old(self).clips(),
            final(self).cursor_request() == old(self).cursor_request(),
            final(self).active_bounds() == old(self).active_bounds(),
            forall|a: int, b: int| #[trigger] final(self).prev_cell(a, b) == old(self).prev_cell(a, b),
            forall|a: int, b: int|
                old(self).in_screen(a, b) ==> #[trigger] final(self).cell(a, b) == blank_cell(),
    {
        let mut y: usize = 0;
        while y < self.height as usize
            invariant
                self.wf(),
                y <= self.height,
                self.width == old(self).width,
                self.height == old(self).height,
                self.prev_buffer == old(self).prev_buffer,
                self.clip_stack == old(self).clip_stack,
                self.cursor == old(self).cursor,
                self.active_view_bounds == old(self).active_view_bounds,
                forall|b: int|
                    0 <= b < y ==> (#[trigger] self.buffer@[b])@ == Seq::new(self.width as nat, |i: int| blank_cell()),
            decreases self.height - y,
        {
            let row = blank_row(self.width);
            let ghost before = self.buffer@;
            self.buffer.set(y, row);
            assert forall|b: int| 0 <= b < self.height implies (#[trigger] self.buffer@[b])@.len()
                == self.width by {
                if b != y {
                    assert(self.buffer@[b] == before[b]);
                }
            }
            assert forall|b: int|
                0 <= b < y + 1 implies (#[trigger] self.buffer@[b])@ == Seq::new(self.width as nat, |i: int| blank_cell()) by {
                if b != y {
                    assert(self.buffer@[b] == before[b]);
                }
            }
            y = y + 1;
        }
        assert forall|a: int, b: int|
            old(self).in_screen(a, b) implies #[trigger] self.cell(a, b) == blank_cell() by {
            assert(self.buffer@[b]@ == Seq::new(self.width as nat, |i: int| blank_cell()));
        }
    }

    /// Whether the drawn cell at `(x, y)` differs from the shown one.
    pub open spec fn changed(&self, x: int, y: int) -> bool {
        self.cell(x, y) != self.prev_cell(x, y)
    }

    /// Whether a run writes only cells that changed, each with its drawn
    /// character, all of them in the run's one attribute.
    pub open spec fn run_ok(&self, r: Run) -> bool {
        &&& r.text@.len() > 0
        &&& forall|x: int|
            r.x <= x < r.x + r.text@.len() ==> {
                &&& self.in_screen(x, r.y as int)
                &&& #[trigger] self.changed(x, r.y as int)
                &&& r.text@[x - r.x] == self.cell(x, r.y as int).ch
                &&& r.attr == self.cell(x, r.y as int).attr
            }
    }

    /// A run cannot be lengthened at either end: the cell before it and the
    /// cell after it on its row are off the screen, unchanged, or of another attribute.
    pub open spec fn run_maximal(&self, r: Run) -> bool {
        &&& (r.x == 0 || !self.changed(r.x - 1, r.y as int) || self.cell(r.x - 1, r.y as int).attr != r.attr)
        &&& (r.x + r.text@.len() == self.spec_width() || !self.changed(r.x + r.text@.len(), r.y as int)
            || self.cell(r.x + r.text@.len(), r.y as int).attr != r.attr)
    }

    /// Run `a` ends before run `b` begins, in row-major order.
    pub open spec fn runs_ordered(a: Run, b: Run) -> bool {
        a.y < b.y || (a.y == b.y && a.x + a.text@.len() <= b.x)
    }

    /// The runs that bring the shown grid up to the drawn grid: in row-major
    /// order and disjoint (each cell written at most once), each one a maximal
    /// stretch of changed cells of one attribute written with their drawn
    /// characters, and together covering exactly the changed cells.
    pub open spec fn runs_exact(&self, runs: Seq<Run>) -> bool {
        &&& forall|i: int| 0 <= i < runs.len() ==> self.run_ok(#[trigger] runs[i]) && self.run_maximal(runs[i])
        &&& forall|i: int, j: int| 0 <= i < j < runs.len() ==> Self::runs_ordered(#[trigger] runs[i], #[trigger] runs[j])
        &&& forall|x: int, y: int| self.in_screen(x, y) ==> (#[trigger] covered(runs, x, y) <==> self.changed(x, y))
        &&& (forall|x: int, y: int| self.in_screen(x, y) ==> !#[trigger] self.changed(x, y)) ==> runs.len() == 0
    }

    /// The writes that would bring the terminal up to date; nothing is marked shown.
    pub fn pending_runs(&self) -> (runs: Vec<Run>)
        requires
            self.wf(),
        ensures
            self.runs_exact(runs@),
    {
        let mut runs: Vec<Run> = Vec::new();
        let h = self.height as usize;
        let w = self.width as usize;
        let mut y: usize = 0;
        while y < h
            invariant
                self.wf(),
                h == self.height,
                w == self.width,
                y <= h,
                forall|i: int|
                    0 <= i < runs@.len() ==> self.run_ok(#[trigger] runs@[i]) && self.run_maximal(runs@[i]) && runs@[i].y < y,
                forall|i: int, j: int| 0 <= i < j < runs@.len() ==> Self::runs_ordered(#[trigger] runs@[i], #[trigger] runs@[j]),
                forall|xx: int, yy: int|
                    self.in_screen(xx, yy) && yy < y && self.cell(xx, yy) != self.prev_cell(xx, yy)
                        ==> #[trigger] covered(runs@, xx, yy),
            decreases h - y,
        {
            let mut x: usize = 0;
            while x < w
                invariant
                    self.wf(),
                    h == self.height,
                    w == self.width,
                    y < h,
                    x <= w,
                    forall|i: int|
                        0 <= i < runs@.len() ==> self.run_ok(#[trigger] runs@[i]) && self.run_maximal(runs@[i]) && (runs@[i].y < y
                            || (runs@[i].y == y && runs@[i].x + runs@[i].text@.len() <= x)),
                    forall|i: int, j: int| 0 <= i < j < runs@.len() ==> Self::runs_ordered(#[trigger] runs@[i], #[trigger] runs@[j]),
                    0 < x < w && self.changed(x as int, y as int) ==> !self.changed(x - 1, y as int)
                        || self.cell(x - 1, y as int).attr != self.cell(x as int, y as int).attr,
                    forall|xx: int, yy: int|
                        self.in_screen(xx, yy) && (yy < y || (yy == y && xx < x)) && self.cell(xx, yy)
                            != self.prev_cell(xx, yy) ==> #[trigger] covered(runs@, xx, yy),
                decreases w - x,
            {
                assert(self.buffer@[y as int]@[x as int] == self.cell(x as int, y as int));
                assert(self.prev_buffer@[y as int]@[x as int] == self.prev_cell(x as int, y as int));
                if self.buffer[y][x] == self.prev_buffer[y][x] {
                    assert(!self.changed(x as int, y as int));
                    x = x + 1;
                } else {
                    let start = x;
                    let attr = self.buffer[y][x].attr;
                    let mut text: Vec<char> = Vec::new();
                    while x < w && self.buffer[y][x] != self.prev_buffer[y][x]
                        && self.buffer[y][x].attr == attr
                        invariant
                            self.wf(),
                            h == self.height,
                            w == self.width,
                            y < h,
                            start <= x <= w,
                            text@.len() == x - start,
                            forall|xx: int|
                                start <= xx < x ==> #[trigger] self.changed(xx, y as int),
                            forall|xx: int|
                                start <= xx < x ==> text@[xx - start] == #[trigger] self.cell(xx, y as int).ch,
                            forall|xx: int|
                                start <= xx < x ==> attr == #[trigger] self.cell(xx, y as int).attr,
                        decreases w - x,
                    {
                        let ghost old_text = text@;
                        text.push(self.buffer[y][x].ch);
                        assert(self.buffer@[y as int]@[x as int] == self.cell(x as int, y as int));
                        assert(self.prev_buffer@[y as int]@[x as int] == self.prev_cell(x as int, y as int));
                        assert(text@[x - start] == self.cell(x as int, y as int).ch);
                        assert(self.cell(start + (x - start), y as int) != self.prev_cell(start + (x - start), y as int));
                        assert(attr == self.cell(x as int, y as int).attr);
                        assert(self.changed(x as int, y as int));
                        let ghost ox = x;
                        x = x + 1;
                        assert forall|xx: int| start <= xx < x implies {
                            &&& #[trigger] self.changed(xx, y as int)
                            &&& text@[xx - start] == #[trigger] self.cell(xx, y as int).ch
                            &&& attr == self.cell(xx, y as int).attr
                        } by {
                            if xx < ox {
                                assert(text@[xx - start] == old_text[xx - start]);
                                assert(self.changed(xx, y as int));
                                assert(old_text[xx - start] == self.cell(xx, y as int).ch);
                                assert(attr == self.cell(xx, y as int).attr);
                            } else {
                                assert(xx == ox);
                                assert(self.changed(xx, y as int));
                                assert(text@[xx - start] == self.cell(xx, y as int).ch);
                                assert(attr == self.cell(xx, y as int).attr);
                            }
                        }
                    }
                    assert(x > start);
                    assert(start < 65536 && y < 65536);
                    proof {
                        if x < w {
                            assert(self.buffer@[y as int]@[x as int] == self.cell(x as int, y as int));
                            assert(self.prev_buffer@[y as int]@[x as int] == self.prev_cell(x as int, y as int));
                        }
                    }
                    let run = Run { x: start as u16, y: y as u16, attr, text };
                    assert(run.x == start && run.y == y);
                    assert(self.run_ok(run));
                    assert(self.changed(start as int, y as int));
                    assert(self.cell(start as int, y as int).attr == attr);
                    assert(self.run_maximal(run));
                    let ghost old_runs = runs@;
                    proof {
                        lemma_covered_push(runs@, run);
                    }
                    runs.push(run);
                    assert forall|i: int, j: int| 0 <= i < j < runs@.len() implies Self::runs_ordered(#[trigger] runs@[i], #[trigger] runs@[j]) by {
                        if j < old_runs.len() {
                            assert(runs@[i] == old_runs[i] && runs@[j] == old_runs[j]);
                        } else {
                            assert(runs@[i] == old_runs[i]);
                            assert(self.run_ok(old_runs[i]));
                        }
                    }
                    assert forall|i: int| 0 <= i < runs@.len() implies self.run_ok(#[trigger] runs@[i]) && self.run_maximal(runs@[i]) && (runs@[i].y < y
                            || (runs@[i].y == y && runs@[i].x + runs@[i].text@.len() <= x)) by {
                        if i < old_runs.len() {
                            assert(runs@[i] == old_runs[i]);
                        }
                    }
                    proof {
                        if 0 < x < w && self.changed(x as int, y as int) {
                            assert(self.cell(x - 1, y as int).attr == attr);
                        }
                    }
                }
            }
            y = y + 1;
        }
        assert forall|x: int, y: int|
            self.in_screen(x, y) implies (#[trigger] covered(runs@, x, y) <==> self.changed(x, y)) by {
            if covered(runs@, x, y) {
                let i = choose|i: int| 0 <= i < runs@.len() && #[trigger] run_covers(runs@[i], x, y);
                assert(self.run_ok(runs@[i]));
                assert(self.changed(x, y));
            }
        }
        proof {
            if runs@.len() > 0 {
                assert(self.run_ok(runs@[0]));
                assert(self.changed(runs@[0].x as int, runs@[0].y as int));
            }
        }
        runs
    }

    /// Emits the writes that bring the terminal up to date and records that it is.
    pub fn flush(&mut self) -> (runs: Vec<Run>)
        requires
            old(self).wf(),
        ensures
            old(self).runs_exact(runs@),
            old(self).committed_into(*final(self)),
    {
        let runs = self.pending_runs();
        self.commit();
        runs
    }

    /// `post` is this terminal with the shown grid set to the drawn grid.
    pub open spec fn committed_into(&self, post: Terminal) -> bool {
        &&& post.wf()
        &&& post.spec_width() == self.spec_width()
        &&& post.spec_height() == self.spec_height()
        &&& post.clips() == self.clips()
        &&& post.cursor_request() == self.cursor_request()
        &&& post.active_bounds() == self.active_bounds()
        &&& forall|x: int, y: int| #[trigger] post.writable(x, y) == self.writable(x, y)
        &&& forall|x: int, y: int| #[trigger] post.cell(x, y) == self.cell(x, y)
        &&& forall|x: int, y: int| self.in_screen(x, y) ==> #[trigger] post.prev_cell(x, y) == self.cell(x, y)
    }

    /// Records that the terminal now shows the drawn grid; called once the
    /// pending runs were written.
    pub fn commit(&mut self)
        requires
            old(self).wf(),
        ensures
            old(self).committed_into(*final(self)),
    {
        let h = self.height as usize;
        let mut y: usize = 0;
        while y < h
            invariant
                self.wf(),
                h == self.height,
                y <= h,
                self.width == old(self).width,
                self.height == old(self).height,
                self.buffer == old(self).buffer,
                self.clip_stack == old(self).clip_stack,
                self.cursor == old(self).cursor,
                self.active_view_bounds == old(self).active_view_bounds,
                forall|b: int| 0 <= b < y ==> (#[trigger] self.prev_buffer@[b])@ == self.buffer@[b]@,
            decreases h - y,
        {
            let row = copy_row(&self.buffer[y]);
            let ghost before = self.prev_buffer@;
            self.prev_buffer.set(y, row);
            assert forall|b: int| 0 <= b < self.height implies (#[trigger] self.prev_buffer@[b])@.len()
                == self.width by {
                if b != y {
                    assert(self.prev_buffer@[b] == before[b]);
                }
            }
            assert forall|b: int| 0 <= b < y + 1 implies (#[trigger] self.prev_buffer@[b])@
                == self.buffer@[b]@ by {
                if b != y {
                    assert(self.prev_buffer@[b] == before[b]);
                }
            }
            y = y + 1;
        }
    }

    /// Narrows the clip region to its intersection with `r`.
    pub fn push_clip(&mut self, r: Rect)
        requires
            old(self).wf(),
        ensures
            final(self).wf(),
            final(self).spec_width() == old(self).spec_width(),
            final(self).spec_height() == old(self).spec_height(),
            final(self).clips().len() == old(self).clips().len() + 1,
            final(self).clips().drop_last() == old(self).clips(),
            final(self).cursor_request() == old(self).cursor_request(),
            final(self).active_bounds() == old(self).active_bounds(),
            forall|a: int, b: int| #[trigger] final(self).cell(a, b) == old(self).cell(a, b),
            forall|a: int, b: int| #[trigger] final(self).prev_cell(a, b) == old(self).prev_cell(a, b),
            forall|a: int, b: int|
                #[trigger] final(self).writable(a, b) == (old(self).writable(a, b)
                    && r.spec_contains(a, b)),
    {
        let n = self.clip_stack.len();
        let top = if n == 0 {
            r
        } else {
            self.clip_stack[n - 1].intersect(&r)
        };
        self.clip_stack.push(top);
        assert(self.clip_stack@.drop_last() =~= old(self).clip_stack@);
    }

    /// Restores the clip region that the last `push_clip` narrowed.
    pub fn pop_clip(&mut self)
        requires
            old(self).wf(),
        ensures
            final(self).wf(),
            final(self).spec_width() == old(self).spec_width(),
            final(self).spec_height() == old(self).spec_height(),
            final(self).clips() == if old(self).clips().len() > 0 {
                old(self).clips().drop_last()
            } else {
                old(self).clips()
            },
            final(self).cursor_request() == old(self).cursor_request(),
            final(self).active_bounds() == old(self).active_bounds(),
            forall|a: int, b: int| #[trigger] final(self).cell(a, b) == old(self).cell(a, b),
            forall|a: int, b: int| #[trigger] final(self).prev_cell(a, b) == old(self).prev_cell(a, b),
    {
        if self.clip_stack.len() > 0 {
            self.clip_stack.pop();
        }
    }

    /// What the clip region admits: a cell on the screen inside the top clip
    /// rectangle, or any cell on the screen when the clip stack is empty.
    pub proof fn lemma_writable(&self)
        ensures
            forall|x: int, y: int| #[trigger] self.writable(x, y) == (self.in_screen(x, y) && (self.clips().len() == 0
                || self.clips().last().spec_contains(x, y))),
    {
    }

    /// Two terminals of one shape and clip stack admit the same writes.
    pub proof fn lemma_same_clips(a: Terminal, b: Terminal)
        requires
            a.spec_width() == b.spec_width(),
            a.spec_height() == b.spec_height(),
            a.clips() == b.clips(),
        ensures
            forall|x: int, y: int| #[trigger] a.writable(x, y) == b.writable(x, y),
    {
    }

    /// `post` is this terminal with at most the cursor request changed.
    pub open spec fn cursor_moved_into(&self, post: Terminal) -> bool {
        &&& post.wf()
        &&& post.spec_width() == self.spec_width()
        &&& post.spec_height() == self.spec_height()
        &&& post.clips() == self.clips()
        &&& post.active_bounds() == self.active_bounds()
        &&& forall|x: int, y: int| #[trigger] post.writable(x, y) == self.writable(x, y)
        &&& forall|x: int, y: int| #[trigger] post.prev_cell(x, y) == self.prev_cell(x, y)
        &&& forall|x: int, y: int| #[trigger] post.cell(x, y) == self.cell(x, y)
    }

    pub proof fn lemma_cursor_moved_refl(&self)
        requires
            self.wf(),
        ensures
            self.cursor_moved_into(*self),
    {
    }

    pub proof fn lemma_cursor_moved_trans(a: Terminal, b: Terminal, c: Terminal)
        requires
            a.cursor_moved_into(b),
            b.cursor_moved_into(c),
        ensures
            a.cursor_moved_into(c),
    {
    }

    /// Writes a row of cells from `(x, y)`, a position that may lie off the screen.
    pub fn write_row(&mut self, x: i32, y: i32, cells: &[Cell])
        requires
            old(self).wf(),
            -200000 <= x <= 200000,
            -200000 <= y <= 200000,
        ensures
            old(self).drawn_into(*final(self)),
            forall|a: int, b: int|
                old(self).in_screen(a, b) ==> #[trigger] final(self).cell(a, b) == if b == y && x
                    <= a < x + cells@.len() && old(self).writable(a, b) {
                    cells@[a - x]
                } else {
                    old(self).cell(a, b)
                },
    {
        self.write_span(x, y, cells);
    }

    /// Asks for the hardware cursor at `(x, y)`.
    pub fn show_cursor(&mut self, x: u16, y: u16)
        requires
            old(self).wf(),
        ensures
            final(self).cursor_request() == Some(Point { x: x as i16, y: y as i16 }),
            old(self).cursor_moved_into(*final(self)),
    {
        self.cursor = Some(Point { x: x as i16, y: y as i16 });
    }

    /// Asks for the hardware cursor to be hidden.
    pub fn hide_cursor(&mut self)
        requires
            old(self).wf(),
        ensures
            final(self).cursor_request().is_none(),
            old(self).cursor_moved_into(*final(self)),
    {
        self.cursor = None;
    }

    /// Where the views asked for the hardware cursor; `None` hides it.
    pub fn cursor_position(&self) -> (r: Option<Point>)
        ensures
            r == self.cursor_request(),
    {
        self.cursor
    }

    pub fn set_active_view_bounds(&mut self, r: Rect)
        ensures
            final(self).active_bounds() == Some(r),
            final(self).wf() == old(self).wf(),
    {
        self.active_view_bounds = Some(r);
    }

    pub fn clear_active_view_bounds(&mut self)
        ensures
            final(self).active_bounds().is_none(),
            final(self).wf() == old(self).wf(),
    {
        self.active_view_bounds = None;
    }

    pub fn active_view_bounds(&self) -> (r: Option<Rect>)
        ensures
            r == self.active_bounds(),
    {
        self.active_view_bounds
    }
}

fn copy_row(src: &Vec<Cell>) -> (r: Vec<Cell>)
    ensures
        r@ == src@,
{
    let mut row: Vec<Cell> = Vec::new();
    let mut x: usize = 0;
    while x < src.len()
        invariant
            x <= src@.len(),
            row@ == src@.subrange(0, x as int),
        decreases src@.len() - x,
    {
        row.push(src[x]);
        x = x + 1;
    }
    assert(row@ =~= src@);
    row
}

fn blank_row(width: u16) -> (r: Vec<Cell>)
    ensures
        r@ == Seq::new(width as nat, |i: int| blank_cell()),
{
    let mut row: Vec<Cell> = Vec::new();
    let mut x: u16 = 0;
    while x < width
        invariant
            x <= width,
            row@ == Seq::new(x as nat, |i: int| blank_cell()),
        decreases width - x,
    {
        row.push(blank());
        x = x + 1;
    }
    row
}

} // verus!
