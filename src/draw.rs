//! Screen cells and the one-row draw buffer that views compose before writing.
use vstd::prelude::*;
use crate::palette::{Attr, TvColor};

verus! {

/// One character position: a single-column character and its colours.
#[derive(Debug, Clone, Copy, PartialEq, Eq, Structural)]
pub struct Cell {
    pub ch: char,
    pub attr: Attr,
}

impl Cell {
    pub fn new(ch: char, attr: Attr) -> (r: Cell)
        ensures
            r.ch == ch && r.attr == attr,
    {
        Cell { ch, attr }
    }
}

/// The attribute of a blank cell: light grey on black.
pub open spec fn blank_attr() -> Attr {
    Attr { fg: TvColor::LightGray, bg: TvColor::Black }
}

pub open spec fn blank_cell() -> Cell {
    Cell { ch: ' ', attr: blank_attr() }
}

pub fn blank() -> (r: Cell)
    ensures
        r == blank_cell(),
{
    Cell { ch: ' ', attr: Attr { fg: TvColor::LightGray, bg: TvColor::Black } }
}

/// The characters of a label as displayed, each with whether it stands between
/// a pair of `~` markers; the markers themselves are not displayed.
pub open spec fn shortcut_display(s: Seq<char>, hot: bool) -> Seq<(char, bool)>
    decreases s.len(),
{
    if s.len() == 0 {
        Seq::empty()
    } else if s[0] == '~' {
        shortcut_display(s.drop_first(), !hot)
    } else {
        seq![(s[0], hot)] + shortcut_display(s.drop_first(), hot)
    }
}

proof fn lemma_shortcut_display_len(s: Seq<char>, hot: bool)
    ensures
        shortcut_display(s, hot).len() <= s.len(),
    decreases s.len(),
{
    if s.len() > 0 {
        lemma_shortcut_display_len(s.drop_first(), if s[0] == '~' { !hot } else { hot });
    }
}

/// The number of characters of `s` other than `~`.
pub fn plain_len(s: &str) -> (r: usize)
    ensures
        r <= s@.len(),
{
    let n = s.unicode_len();
    let mut count: usize = 0;
    let mut i: usize = 0;
    while i < n
        invariant
            n == s@.len(),
            i <= n,
            count <= i,
        decreases n - i,
    {
        if s.get_char(i) != '~' {
            count = count + 1;
        }
        i = i + 1;
    }
    count
}

/// A row of cells that a view fills before writing it to the screen.
pub struct DrawBuffer {
    pub data: Vec<Cell>,
}

impl DrawBuffer {
    /// A row of `width` blank cells.
    pub fn new(width: usize) -> (r: DrawBuffer)
        ensures
            r.data@ == Seq::new(width as nat, |i: int| blank_cell()),
    {
        let mut data: Vec<Cell> = Vec::new();
        let mut i: usize = 0;
        while i < width
            invariant
                i <= width,
                data@ == Seq::new(i as nat, |k: int| blank_cell()),
            decreases width - i,
        {
            data.push(blank());
            i = i + 1;
        }
        DrawBuffer { data }
    }

    pub fn len(&self) -> (r: usize)
        ensures
            r == self.data@.len(),
    {
        self.data.len()
    }

    /// Sets one cell; a position past the end is ignored.
    pub fn put_char(&mut self, x: usize, ch: char, attr: Attr)
        ensures
            final(self).data@ == if x < old(self).data@.len() {
                old(self).data@.update(x as int, Cell { ch, attr })
            } else {
                old(self).data@
            },
    {
        if x < self.data.len() {
            self.data.set(x, Cell { ch, attr });
        }
    }

    /// Sets `count` cells from `x` on to the same character; cells past the end are ignored.
    pub fn move_char(&mut self, x: usize, ch: char, attr: Attr, count: usize)
        ensures
            final(self).data@.len() == old(self).data@.len(),
            forall|i: int|
                0 <= i < old(self).data@.len() ==> #[trigger] final(self).data@[i] == if x <= i
                    < x + count {
                    Cell { ch, attr }
                } else {
                    old(self).data@[i]
                },
    {
        let len = self.data.len();
        let mut i: usize = x;
        while i < len && i - x < count
            invariant
                x <= i,
                i - x <= count,
                len == old(self).data@.len(),
                self.data@.len() == len,
                forall|k: int|
                    0 <= k < len ==> #[trigger] self.data@[k] == if x <= k < i {
                        Cell { ch, attr }
                    } else {
                        old(self).data@[k]
                    },
            decreases len - i,
        {
            self.data.set(i, Cell { ch, attr });
            i = i + 1;
        }
    }

    /// Writes the characters of `s` from `x` on; cells past the end are ignored.
    /// Returns the number of characters of `s`.
    pub fn move_str(&mut self, x: usize, s: &str, attr: Attr) -> (n: usize)
        ensures
            n == s@.len(),
            final(self).data@.len() == old(self).data@.len(),
            forall|i: int|
                0 <= i < old(self).data@.len() ==> #[trigger] final(self).data@[i] == if x <= i
                    < x + s@.len() {
                    Cell { ch: s@[i - x], attr }
                } else {
                    old(self).data@[i]
                },
    {
        let n = s.unicode_len();
        let len = self.data.len();
        let mut j: usize = 0;
        while j < n
            invariant
                n == s@.len(),
                len == old(self).data@.len(),
                self.data@.len() == len,
                j <= n,
                forall|k: int|
                    0 <= k < len ==> #[trigger] self.data@[k] == if x <= k < x + j {
                        Cell { ch: s@[k - x], attr }
                    } else {
                        old(self).data@[k]
                    },
            decreases n - j,
        {
            let c = s.get_char(j);
            if x < len && j < len - x {
                self.data.set(x + j, Cell { ch: c, attr });
            }
            j = j + 1;
        }
        n
    }

    /// Writes `s` from `x` on, without its `~` markers: characters between a pair
    /// of markers take `hot`, the others `normal`. Cells past the end are ignored.
    /// Returns the number of characters displayed.
    pub fn move_str_with_shortcut(&mut self, x: usize, s: &str, normal: Attr, hot: Attr) -> (n:
        usize)
        ensures
            n == shortcut_display(s@, false).len(),
            n <= s@.len(),
            final(self).data@.len() == old(self).data@.len(),
            forall|i: int|
                0 <= i < old(self).data@.len() ==> #[trigger] final(self).data@[i] == if x <= i
                    < x + n {
                    Cell {
                        ch: shortcut_display(s@, false)[i - x].0,
                        attr: if shortcut_display(s@, false)[i - x].1 {
                            hot
                        } else {
                            normal
                        },
                    }
                } else {
                    old(self).data@[i]
                },
    {
        let ghost d = shortcut_display(s@, false);
        let len = self.data.len();
        let m = s.unicode_len();
        let mut j: usize = 0;
        let mut n: usize = 0;
        let mut in_hot = false;
        proof {
            lemma_shortcut_display_len(s@, false);
        }
        assert(s@.skip(0) =~= s@);
        assert(d.subrange(0, 0) + d =~= d);
        while j < m
            invariant
                m == s@.len(),
                len == old(self).data@.len(),
                self.data@.len() == len,
                j <= m,
                n <= j,
                d == shortcut_display(s@, false),
                n + shortcut_display(s@.skip(j as int), in_hot).len() == d.len(),
                d == d.subrange(0, n as int) + shortcut_display(s@.skip(j as int), in_hot),
                forall|k: int|
                    0 <= k < len ==> #[trigger] self.data@[k] == if x <= k < x + n {
                        Cell {
                            ch: d[k - x].0,
                            attr: if d[k - x].1 {
                                hot
                            } else {
                                normal
                            },
                        }
                    } else {
                        old(self).data@[k]
                    },
            decreases m - j,
        {
            let c = s.get_char(j);
            let ghost rest = s@.skip(j as int);
            assert(rest[0] == c);
            assert(rest.drop_first() =~= s@.skip(j + 1));
            proof {
                lemma_shortcut_display_len(s@.skip(j + 1), !in_hot);
                lemma_shortcut_display_len(s@.skip(j + 1), in_hot);
            }
            if c == '~' {
                assert(shortcut_display(rest, in_hot) == shortcut_display(s@.skip(j + 1), !in_hot));
                in_hot = !in_hot;
            } else {
                let ghost tail = shortcut_display(s@.skip(j + 1), in_hot);
                assert(shortcut_display(rest, in_hot) == seq![(c, in_hot)] + tail);
                assert(d == d.subrange(0, n as int) + (seq![(c, in_hot)] + tail));
                assert(d[n as int] == (c, in_hot));
                let a = if in_hot { hot } else { normal };
                if x < len && n < len - x {
                    self.data.set(x + n, Cell { ch: c, attr: a });
                }
                assert(d.subrange(0, n + 1) =~= d.subrange(0, n as int) + seq![(c, in_hot)]);
                assert(d.subrange(0, n + 1) + tail =~= d.subrange(0, n as int) + (seq![(c, in_hot)] + tail));
                n = n + 1;
            }
            j = j + 1;
        }
        assert(s@.skip(m as int).len() == 0);
        assert(d =~= d.subrange(0, n as int));
        n
    }
}

} // verus!
