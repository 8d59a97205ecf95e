//! Text export of a cell grid with ANSI colour codes, for viewing with `cat`.
use vstd::prelude::*;
use crate::draw::Cell;
use crate::input_line::string_from_chars;
use crate::palette::{Attr, TvColor};

verus! {

/// The ANSI foreground code of a colour.
pub open spec fn ansi_fg(c: TvColor) -> u8 {
    match c {
        TvColor::Black => 30,
        TvColor::Blue => 34,
        TvColor::Green => 32,
        TvColor::Cyan => 36,
        TvColor::Red => 31,
        TvColor::Magenta => 35,
        TvColor::Brown => 33,
        TvColor::LightGray => 37,
        TvColor::DarkGray => 90,
        TvColor::LightBlue => 94,
        TvColor::LightGreen => 92,
        TvColor::LightCyan => 96,
        TvColor::LightRed => 91,
        TvColor::LightMagenta => 95,
        TvColor::Yellow => 93,
        TvColor::White => 97,
    }
}

/// The ANSI background code of a colour: ten above its foreground code.
pub open spec fn ansi_bg(c: TvColor) -> u8 {
    (ansi_fg(c) + 10) as u8
}

pub fn color_to_ansi_fg(color: TvColor) -> (r: u8)
    ensures
        r == ansi_fg(color),
{
    match color {
        TvColor::Black => 30,
        TvColor::Blue => 34,
        TvColor::Green => 32,
        TvColor::Cyan => 36,
        TvColor::Red => 31,
        TvColor::Magenta => 35,
        TvColor::Brown => 33,
        TvColor::LightGray => 37,
        TvColor::DarkGray => 90,
        TvColor::LightBlue => 94,
        TvColor::LightGreen => 92,
        TvColor::LightCyan => 96,
        TvColor::LightRed => 91,
        TvColor::LightMagenta => 95,
        TvColor::Yellow => 93,
        TvColor::White => 97,
    }
}

pub fn color_to_ansi_bg(color: TvColor) -> (r: u8)
    ensures
        r == ansi_bg(color),
{
    match color {
        TvColor::Black => 40,
        TvColor::Blue => 44,
        TvColor::Green => 42,
        TvColor::Cyan => 46,
        TvColor::Red => 41,
        TvColor::Magenta => 45,
        TvColor::Brown => 43,
        TvColor::LightGray => 47,
        TvColor::DarkGray => 100,
        TvColor::LightBlue => 104,
        TvColor::LightGreen => 102,
        TvColor::LightCyan => 106,
        TvColor::LightRed => 101,
        TvColor::LightMagenta => 105,
        TvColor::Yellow => 103,
        TvColor::White => 107,
    }
}

/// The decimal digits of a number.
pub open spec fn decimal(n: u8) -> Seq<char>
    decreases n,
{
    if n < 10 {
        seq![((48u8 + n) as u8) as char]
    } else {
        decimal(n / 10) + seq![((48u8 + n % 10) as u8) as char]
    }
}

/// The escape sequence that sets attribute `a` after `last`: both codes when
/// nothing was set or both colours change, one code when one changes, nothing
/// when neither does.
pub open spec fn sgr(last: Option<Attr>, a: Attr) -> Seq<char> {
    let both = seq!['\x1b', '['] + decimal(ansi_fg(a.fg)) + seq![';'] + decimal(ansi_bg(a.bg)) + seq!['m'];
    match last {
        None => both,
        Some(l) => if l.fg != a.fg && l.bg != a.bg {
            both
        } else if l.fg != a.fg {
            seq!['\x1b', '['] + decimal(ansi_fg(a.fg)) + seq!['m']
        } else if l.bg != a.bg {
            seq!['\x1b', '['] + decimal(ansi_bg(a.bg)) + seq!['m']
        } else {
            Seq::empty()
        },
    }
}

/// The text of a row of cells: each character after the codes of its colours.
pub open spec fn row_text(cells: Seq<Cell>, last: Option<Attr>) -> Seq<char>
    decreases cells.len(),
{
    if cells.len() == 0 {
        Seq::empty()
    } else {
        sgr(last, cells[0].attr) + seq![cells[0].ch] + row_text(cells.drop_first(), Some(cells[0].attr))
    }
}

/// The reset code and line end that close every row.
pub open spec fn row_end() -> Seq<char> {
    seq!['\x1b', '[', '0', 'm', '\n']
}

/// The rows `y0..y1` of a grid, columns `x0..x1` of each (as far as the row reaches).
pub open spec fn region_text(rows: Seq<Seq<Cell>>, x0: int, x1: int) -> Seq<char>
    decreases rows.len(),
{
    if rows.len() == 0 {
        Seq::empty()
    } else {
        let r = rows[0];
        let hi = if x1 < r.len() { x1 } else { r.len() as int };
        let lo = if x0 < hi { x0 } else { hi };
        row_text(r.subrange(lo, hi), None) + row_end() + region_text(rows.drop_first(), x0, x1)
    }
}

fn push_decimal(out: &mut Vec<char>, n: u8)
    ensures
        final(out)@ == old(out)@ + decimal(n),
    decreases n,
{
    if n >= 10 {
        push_decimal(out, n / 10);
    }
    let d = n % 10;
    assert(d < 10);
    out.push((48u8 + d) as char);
}

fn push_sgr(out: &mut Vec<char>, last: Option<Attr>, a: Attr)
    ensures
        final(out)@ == old(out)@ + sgr(last, a),
{
    let (fg, bg) = match last {
        None => (true, true),
        Some(l) => (l.fg != a.fg, l.bg != a.bg),
    };
    let ghost o = out@;
    if fg || bg {
        out.push('\x1b');
        out.push('[');
        if fg {
            push_decimal(out, color_to_ansi_fg(a.fg));
        }
        if fg && bg {
            out.push(';');
        }
        if bg {
            push_decimal(out, color_to_ansi_bg(a.bg));
        }
        out.push('m');
    }
    assert(out@ =~= o + sgr(last, a));
}

fn push_row(out: &mut Vec<char>, row: &Vec<Cell>, lo: usize, hi: usize)
    requires
        lo <= hi <= row@.len(),
    ensures
        final(out)@ == old(out)@ + row_text(row@.subrange(lo as int, hi as int), None) + row_end(),
{
    let ghost cells = row@.subrange(lo as int, hi as int);
    let ghost o = out@;
    let mut last: Option<Attr> = None;
    let mut x: usize = lo;
    assert(cells.skip(0) =~= cells);
    while x < hi
        invariant
            lo <= x <= hi <= row@.len(),
            cells == row@.subrange(lo as int, hi as int),
            o + row_text(cells, None) == out@ + row_text(cells.skip(x - lo), last),
        decreases hi - x,
    {
        let c = row[x];
        let ghost rest = cells.skip(x - lo);
        assert(rest[0] == c);
        assert(rest.drop_first() =~= cells.skip(x + 1 - lo));
        let ghost before = out@;
        push_sgr(out, last, c.attr);
        out.push(c.ch);
        assert(out@ =~= before + sgr(last, c.attr) + seq![c.ch]);
        assert(row_text(rest, last) == sgr(last, c.attr) + seq![c.ch] + row_text(rest.drop_first(), Some(c.attr)));
        assert(before + row_text(rest, last) =~= out@ + row_text(cells.skip(x + 1 - lo), Some(c.attr)));
        last = Some(c.attr);
        x = x + 1;
    }
    assert(cells.skip(hi - lo).len() == 0);
    assert(row_text(cells.skip(hi - lo), last) =~= Seq::<char>::empty());
    assert(out@ =~= o + row_text(cells, None));
    let ghost mid = out@;
    out.push('\x1b');
    out.push('[');
    out.push('0');
    out.push('m');
    out.push('\n');
    assert(out@ =~= mid + row_end());
}

/// The text of the columns `x..x + width` of the rows `y..y + height` of a
/// grid, each row cut where it ends, each line closed with a reset code.
pub fn dump_buffer_region(buffer: &[Vec<Cell>], x: usize, y: usize, width: usize, height: usize) -> (r: String)
    ensures
        r@ == region_text(
            buffer@.map_values(|row: Vec<Cell>| row@).subrange(
                if y < buffer@.len() { y as int } else { buffer@.len() as int },
                if y + height < buffer@.len() { y + height } else { buffer@.len() as int },
            ),
            x as int,
            x + width,
        ),
{
    let ghost grid = buffer@.map_values(|row: Vec<Cell>| row@);
    let n = buffer.len();
    let y0: usize = if y < n { y } else { n };
    let y1: usize = if height < n - y0 { y0 + height } else { n };
    let ghost rows = grid.subrange(y0 as int, y1 as int);
    assert(y1 as int == if y + height < n { y + height } else { n as int });
    let mut out: Vec<char> = Vec::new();
    let mut j: usize = y0;
    assert(rows.skip(0) =~= rows);
    while j < y1
        invariant
            y0 <= j <= y1 <= n,
            n == buffer@.len(),
            grid == buffer@.map_values(|row: Vec<Cell>| row@),
            rows == grid.subrange(y0 as int, y1 as int),
            region_text(rows, x as int, x + width) == out@ + region_text(rows.skip(j - y0), x as int, x + width),
        decreases y1 - j,
    {
        let row = &buffer[j];
        let len = row.len();
        let hi: usize = if width < len && x < len - width { x + width } else { len };
        let lo: usize = if x < hi { x } else { hi };
        let ghost rest = rows.skip(j - y0);
        assert(rest[0] == row@);
        assert(rest.drop_first() =~= rows.skip(j + 1 - y0));
        let ghost before = out@;
        push_row(&mut out, row, lo, hi);
        assert(before + region_text(rest, x as int, x + width) =~= out@ + region_text(rows.skip(j + 1 - y0), x as int, x + width));
        j = j + 1;
    }
    assert(rows.skip(y1 - y0).len() == 0);
    assert(out@ =~= region_text(rows, x as int, x + width));
    string_from_chars(&out)
}

/// The text of the first `width` columns of the first `height` rows of a grid.
pub fn dump_buffer(buffer: &[Vec<Cell>], width: usize, height: usize) -> (r: String)
    ensures
        r@ == region_text(
            buffer@.map_values(|row: Vec<Cell>| row@).subrange(
                0,
                if height < buffer@.len() { height as int } else { buffer@.len() as int },
            ),
            0,
            width as int,
        ),
{
    dump_buffer_region(buffer, 0, 0, width, height)
}

} // verus!
