//! A one-line text field with a cursor, a selection, horizontal scrolling and
//! clipboard commands.
use vstd::prelude::*;
use crate::draw::DrawBuffer;
use crate::event::{
    Event, EventType, KB_BACKSPACE, KB_DEL, KB_END, KB_ENTER, KB_HOME, KB_LEFT, KB_RIGHT, nothing_event,
};
use crate::geometry::Rect;
use crate::palette::{Attr, TvColor};
use crate::terminal::Terminal;
use crate::clipboard::set_clipboard;
use crate::view::Context;

verus! {

pub const KB_CTRL_A: u16 = 0x0001;
pub const KB_CTRL_C: u16 = 0x0003;
pub const KB_CTRL_V: u16 = 0x0016;
pub const KB_CTRL_X: u16 = 0x0018;

/// Relies on `FromIterator<char>` for `String`: the string holds the characters in order.
#[verifier::external_body]
pub(crate) fn string_from_chars(chars: &Vec<char>) -> (r: String)
    ensures
        r@ == chars@,
{
    chars.iter().collect()
}

/// The characters of a string.
pub fn chars_of(s: &str) -> (r: Vec<char>)
    ensures
        r@ == s@,
{
    let n = s.unicode_len();
    let mut out: Vec<char> = Vec::new();
    let mut i: usize = 0;
    while i < n
        invariant
            n == s@.len(),
            i <= n,
            out@ == s@.subrange(0, i as int),
        decreases n - i,
    {
        out.push(s.get_char(i));
        assert(s@.subrange(0, i + 1) =~= s@.subrange(0, i as int).push(s@[i as int]));
        i = i + 1;
    }
    assert(s@.subrange(0, n as int) =~= s@);
    out
}

/// `v` with the characters from `lo` to `hi` replaced by `ins`.
pub open spec fn spliced(v: Seq<char>, lo: int, hi: int, ins: Seq<char>) -> Seq<char> {
    v.subrange(0, lo) + ins + v.subrange(hi, v.len() as int)
}

fn splice(v: &Vec<char>, lo: usize, hi: usize, ins: &[char]) -> (r: Vec<char>)
    requires
        lo <= hi <= v@.len(),
    ensures
        r@ == spliced(v@, lo as int, hi as int, ins@),
{
    let mut out: Vec<char> = Vec::new();
    let mut i: usize = 0;
    while i < lo
        invariant
            i <= lo <= hi <= v@.len(),
            out@ == v@.subrange(0, i as int),
        decreases lo - i,
    {
        out.push(v[i]);
        assert(v@.subrange(0, i + 1) =~= v@.subrange(0, i as int).push(v@[i as int]));
        i = i + 1;
    }
    let mut j: usize = 0;
    while j < ins.len()
        invariant
            j <= ins@.len(),
            out@ == v@.subrange(0, lo as int) + ins@.subrange(0, j as int),
        decreases ins@.len() - j,
    {
        out.push(ins[j]);
        assert(ins@.subrange(0, j + 1) =~= ins@.subrange(0, j as int).push(ins@[j as int]));
        j = j + 1;
    }
    let mut k: usize = hi;
    while k < v.len()
        invariant
            hi <= k <= v@.len(),
            out@ == v@.subrange(0, lo as int) + ins@ + v@.subrange(hi as int, k as int),
        decreases v@.len() - k,
    {
        out.push(v[k]);
        assert(v@.subrange(hi as int, k + 1) =~= v@.subrange(hi as int, k as int).push(v@[k as int]));
        k = k + 1;
    }
    assert(ins@.subrange(0, ins@.len() as int) =~= ins@);
    out
}

pub struct InputLine {
    pub bounds: Rect,
    pub data: Vec<char>,
    pub cursor_pos: usize,
    pub max_length: usize,
    pub focused: bool,
    pub sel_start: usize,
    pub sel_end: usize,
    pub first_pos: usize,
}

pub open spec fn input_step(pre: InputLine, post: InputLine, ev0: Event, ev1: Event) -> bool {
    &&& post.wf()
    &&& post.bounds == pre.bounds
    &&& post.focused == pre.focused
    &&& post.max_length == pre.max_length
    &&& pre.focused && ev0.what == EventType::Keyboard && 32 <= ev0.key_code < 127
                && !pre.spec_has_selection() && pre.data@.len() < pre.max_length
                ==> post.data@ == spliced(pre.data@, pre.cursor_pos as int, pre.cursor_pos as int,
                    seq![(ev0.key_code as u8) as char]) && ev1 == nothing_event()
    &&& pre.focused && ev0.what == EventType::Keyboard && ev0.key_code == KB_BACKSPACE
                && !pre.spec_has_selection() && pre.cursor_pos > 0
                ==> post.data@ == spliced(pre.data@, pre.cursor_pos - 1, pre.cursor_pos as int, Seq::empty())
                && post.cursor_pos == pre.cursor_pos - 1 && ev1 == nothing_event()
    &&& pre.focused && ev0.what == EventType::Keyboard && ev0.key_code == KB_DEL
                && !pre.spec_has_selection() && pre.cursor_pos < pre.data@.len()
                ==> post.data@ == spliced(pre.data@, pre.cursor_pos as int, pre.cursor_pos + 1, Seq::empty())
                && ev1 == nothing_event()
    &&& pre.focused && ev0.what == EventType::Keyboard && (ev0.key_code == KB_BACKSPACE
                || ev0.key_code == KB_DEL) && pre.spec_has_selection()
                ==> post.data@ == spliced(pre.data@, pre.sel_lo(), pre.sel_hi(), Seq::empty())
                && ev1 == nothing_event()
    &&& pre.focused && ev0.what == EventType::Keyboard && ev0.key_code == KB_HOME
                ==> post.data == pre.data && post.cursor_pos == 0 && ev1 == nothing_event()
    &&& pre.focused && ev0.what == EventType::Keyboard && ev0.key_code == KB_END
                ==> post.data == pre.data && post.cursor_pos == pre.data@.len() && ev1 == nothing_event()
    &&& (!pre.focused || ev0.what != EventType::Keyboard ==> post == pre && ev1 == ev0)
    &&& (pre.focused && ev0.what == EventType::Keyboard && 32 <= ev0.key_code < 127
        && !pre.spec_has_selection() && pre.data@.len() < pre.max_length
        ==> post.cursor_pos == pre.cursor_pos + 1)
    &&& (pre.focused && ev0.what == EventType::Keyboard && ev0.key_code == KB_CTRL_X && pre.spec_has_selection()
        ==> post.data@ == spliced(pre.data@, pre.sel_lo(), pre.sel_hi(), Seq::empty()) && ev1 == nothing_event())
    &&& (pre.data@.len() <= pre.max_length ==> post.data@.len() <= post.max_length)
}

impl InputLine {
    /// The cursor, the selection ends and the scroll position lie in the text.
    pub open spec fn wf(&self) -> bool {
        &&& self.cursor_pos <= self.data@.len()
        &&& self.sel_start <= self.data@.len()
        &&& self.sel_end <= self.data@.len()
        &&& self.first_pos <= self.cursor_pos
    }

    pub open spec fn sel_lo(&self) -> int {
        if self.sel_start <= self.sel_end { self.sel_start as int } else { self.sel_end as int }
    }

    pub open spec fn sel_hi(&self) -> int {
        if self.sel_start <= self.sel_end { self.sel_end as int } else { self.sel_start as int }
    }

    pub open spec fn spec_has_selection(&self) -> bool {
        self.sel_start != self.sel_end
    }

    /// A field holding `initial`, the cursor after its last character.
    pub fn new(bounds: Rect, max_length: usize, initial: &str) -> (r: InputLine)
        ensures
            r.wf(),
            r.bounds == bounds,
            r.data@ == initial@,
            r.cursor_pos == initial@.len(),
            r.max_length == max_length,
            !r.focused,
            !r.spec_has_selection(),
    {
        let data = chars_of(initial);
        let cursor_pos = data.len();
        InputLine { bounds, data, cursor_pos, max_length, focused: false, sel_start: 0, sel_end: 0, first_pos: 0 }
    }

    /// Replaces the text; the cursor goes after its end and the selection is dropped.
    pub fn set_text(&mut self, text: &str)
        ensures
            final(self).wf(),
            final(self).data@ == text@,
            final(self).cursor_pos == text@.len(),
            !final(self).spec_has_selection(),
            final(self).bounds == old(self).bounds,
            final(self).focused == old(self).focused,
            final(self).max_length == old(self).max_length,
    {
        self.data = chars_of(text);
        self.cursor_pos = self.data.len();
        self.sel_start = 0;
        self.sel_end = 0;
        self.first_pos = 0;
    }

    pub fn get_text(&self) -> (r: String)
        ensures
            r@ == self.data@,
    {
        string_from_chars(&self.data)
    }

    pub fn set_focused(&mut self, focused: bool)
        ensures
            *final(self) == (InputLine { focused, ..*old(self) }),
    {
        self.focused = focused;
    }

    /// Selects the whole text and puts the cursor after it.
    pub fn select_all(&mut self)
        requires
            old(self).wf(),
        ensures
            final(self).wf(),
            final(self).data == old(self).data,
            final(self).sel_start == 0,
            final(self).sel_end == old(self).data@.len(),
            final(self).cursor_pos == old(self).data@.len(),
            final(self).bounds == old(self).bounds,
            final(self).focused == old(self).focused,
            final(self).max_length == old(self).max_length,
    {
        let len = self.data.len();
        self.sel_start = 0;
        self.sel_end = len;
        self.cursor_pos = len;
    }

    pub fn has_selection(&self) -> (r: bool)
        ensures
            r == self.spec_has_selection(),
    {
        self.sel_start != self.sel_end
    }

    /// The selected text, if there is a selection.
    pub fn get_selection(&self) -> (r: Option<String>)
        requires
            self.wf(),
        ensures
            r.is_some() == self.spec_has_selection(),
            r.is_some() ==> r.unwrap()@ == self.data@.subrange(self.sel_lo(), self.sel_hi()),
    {
        if !self.has_selection() {
            return None;
        }
        let (lo, hi) = if self.sel_start <= self.sel_end { (self.sel_start, self.sel_end) } else { (self.sel_end, self.sel_start) };
        let mut out: Vec<char> = Vec::new();
        let mut i: usize = lo;
        while i < hi
            invariant
                lo <= i <= hi <= self.data@.len(),
                out@ == self.data@.subrange(lo as int, i as int),
            decreases hi - i,
        {
            out.push(self.data[i]);
            assert(self.data@.subrange(lo as int, i + 1) =~= self.data@.subrange(lo as int, i as int).push(self.data@[i as int]));
            i = i + 1;
        }
        Some(string_from_chars(&out))
    }

    /// Removes the selected text; the cursor goes where it began.
    fn delete_selection(&mut self)
        requires
            old(self).wf(),
        ensures
            final(self).wf(),
            old(self).spec_has_selection() ==> final(self).data@ == spliced(old(self).data@, old(self).sel_lo(), old(self).sel_hi(), Seq::empty())
                && final(self).cursor_pos == old(self).sel_lo() && !final(self).spec_has_selection(),
            !old(self).spec_has_selection() ==> *final(self) == *old(self),
            final(self).bounds == old(self).bounds,
            final(self).focused == old(self).focused,
            final(self).max_length == old(self).max_length,
    {
        if !self.has_selection() {
            return;
        }
        let (lo, hi) = if self.sel_start <= self.sel_end { (self.sel_start, self.sel_end) } else { (self.sel_end, self.sel_start) };
        self.data = splice(&self.data, lo, hi, &[]);
        self.cursor_pos = lo;
        self.sel_start = 0;
        self.sel_end = 0;
        if self.first_pos > lo {
            self.first_pos = lo;
        }
    }

    /// Scrolls so that the cursor is shown.
    fn make_cursor_visible(&mut self)
        requires
            old(self).wf(),
        ensures
            final(self).wf(),
            final(self).data == old(self).data,
            final(self).cursor_pos == old(self).cursor_pos,
            final(self).sel_start == old(self).sel_start,
            final(self).sel_end == old(self).sel_end,
            final(self).bounds == old(self).bounds,
            final(self).focused == old(self).focused,
            final(self).max_length == old(self).max_length,
    {
        let w = self.bounds.width();
        let width: usize = if w > 0 { w as usize } else { 1 };
        if self.cursor_pos < self.first_pos {
            self.first_pos = self.cursor_pos;
        } else if self.cursor_pos - self.first_pos >= width {
            self.first_pos = self.cursor_pos - (width - 1);
        }
    }

    fn collapse(&mut self, cursor: usize)
        requires
            old(self).wf(),
            cursor <= old(self).data@.len(),
        ensures
            final(self).wf(),
            final(self).data == old(self).data,
            final(self).cursor_pos == cursor,
            !final(self).spec_has_selection(),
            final(self).bounds == old(self).bounds,
            final(self).focused == old(self).focused,
            final(self).max_length == old(self).max_length,
    {
        self.cursor_pos = cursor;
        self.sel_start = 0;
        self.sel_end = 0;
        if self.first_pos > cursor {
            self.first_pos = cursor;
        }
        self.make_cursor_visible();
    }

    fn insert_chars(&mut self, ins: &[char])
        requires
            old(self).wf(),
        ensures
            final(self).wf(),
            final(self).data@ == spliced(old(self).data@, old(self).cursor_pos as int, old(self).cursor_pos as int, ins@),
            final(self).cursor_pos == old(self).cursor_pos + ins@.len(),
            !final(self).spec_has_selection(),
            final(self).bounds == old(self).bounds,
            final(self).focused == old(self).focused,
            final(self).max_length == old(self).max_length,
    {
        let c = self.cursor_pos;
        let data = splice(&self.data, c, c, ins);
        let n = data.len();
        assert(n == c + ins@.len() + (self.data@.len() - c));
        self.replace_text(data, c + ins.len());
    }

    fn replace_text(&mut self, data: Vec<char>, cursor: usize)
        requires
            cursor <= data@.len(),
        ensures
            final(self).wf(),
            final(self).data@ == data@,
            final(self).cursor_pos == cursor,
            !final(self).spec_has_selection(),
            final(self).bounds == old(self).bounds,
            final(self).focused == old(self).focused,
            final(self).max_length == old(self).max_length,
    {
        self.data = data;
        self.cursor_pos = cursor;
        self.sel_start = 0;
        self.sel_end = 0;
        if self.first_pos > cursor {
            self.first_pos = cursor;
        }
        self.make_cursor_visible();
    }

    /// Editing keys while focused. A printable character replaces the selection
    /// and is inserted at the cursor while the text is shorter than the maximum;
    /// Backspace and Delete remove the selection, or the character before or at
    /// the cursor; the arrows, Home and End move the cursor; Ctrl-A selects all,
    /// Ctrl-C copies, Ctrl-X cuts and Ctrl-V pastes as much of the clipboard as fits.
    pub fn handle_event(&mut self, event: &mut Event, ctx: &mut Context)
        requires
            old(self).wf(),
        ensures
            final(ctx).commands == old(ctx).commands,
            !old(self).focused || old(event).what != EventType::Keyboard ==> *final(ctx) == *old(ctx),
            old(self).focused && old(event).what == EventType::Keyboard && old(event).key_code == KB_CTRL_X
                && old(self).spec_has_selection() ==> final(ctx).clipboard.text@ == old(self).data@.subrange(old(self).sel_lo(), old(self).sel_hi()),
            old(self).focused && old(event).what == EventType::Keyboard && old(event).key_code == KB_CTRL_C
                && old(self).spec_has_selection() ==> final(self).data == old(self).data
                && final(ctx).clipboard.text@ == old(self).data@.subrange(old(self).sel_lo(), old(self).sel_hi()),
            input_step(*old(self), *final(self), *old(event), *final(event)),
    {
        if !self.focused || event.what != EventType::Keyboard {
            return;
        }
        let k = event.key_code;
        if k == KB_BACKSPACE {
            if self.has_selection() {
                self.delete_selection();
                self.make_cursor_visible();
                event.clear();
            } else if self.cursor_pos > 0 {
                let c = self.cursor_pos;
                let data = splice(&self.data, c - 1, c, &[]);
                self.replace_text(data, c - 1);
                event.clear();
            }
        } else if k == KB_DEL {
            if self.has_selection() {
                self.delete_selection();
                self.make_cursor_visible();
                event.clear();
            } else if self.cursor_pos < self.data.len() {
                let c = self.cursor_pos;
                let data = splice(&self.data, c, c + 1, &[]);
                self.replace_text(data, c);
                event.clear();
            }
        } else if k == KB_LEFT {
            if self.cursor_pos > 0 {
                let c = self.cursor_pos;
                self.collapse(c - 1);
                event.clear();
            }
        } else if k == KB_RIGHT {
            if self.cursor_pos < self.data.len() {
                let c = self.cursor_pos;
                self.collapse(c + 1);
                event.clear();
            }
        } else if k == KB_HOME {
            self.collapse(0);
            event.clear();
        } else if k == KB_END {
            let n = self.data.len();
            self.collapse(n);
            event.clear();
        } else if k == KB_ENTER {
            event.clear();
        } else if k == KB_CTRL_A {
            self.select_all();
            event.clear();
        } else if k == KB_CTRL_C {
            match self.get_selection() {
                Some(s) => set_clipboard(&mut ctx.clipboard, s.as_str()),
                None => {},
            }
            event.clear();
        } else if k == KB_CTRL_X {
            match self.get_selection() {
                Some(s) => {
                    set_clipboard(&mut ctx.clipboard, s.as_str());
                    self.delete_selection();
                    self.make_cursor_visible();
                },
                None => {},
            }
            event.clear();
        } else if k == KB_CTRL_V {
            let clip = chars_of(ctx.clipboard.text.as_str());
            if clip.len() > 0 {
                self.delete_selection();
                let len = self.data.len();
                let room = if self.max_length > len { self.max_length - len } else { 0 };
                let take = if clip.len() <= room { clip.len() } else { room };
                let part = splice(&clip, take, clip.len(), &[]);
                self.insert_chars(part.as_slice());
            }
            event.clear();
        } else if 32 <= k && k < 127 {
            self.delete_selection();
            if self.data.len() < self.max_length {
                let ch = char_of_ascii(k as u8);
                let one: [char; 1] = [ch];
                assert(one@ =~= seq![(k as u8) as char]);
                self.insert_chars(&one);
                event.clear();
            }
        }
    }

    /// The visible part of the text from `first_pos`, the selection highlighted,
    /// with `<` and `>` where the text runs on beyond either edge.
    pub fn draw(&self, terminal: &mut Terminal)
        requires
            old(terminal).wf(),
        ensures
            old(terminal).drawn_into(*final(terminal)),
    {
        let ghost t0 = *terminal;
        proof {
            t0.lemma_drawn_into_refl();
        }
        let w = self.bounds.width();
        if w <= 0 {
            return;
        }
        let width = w as usize;
        let attr = Attr::new(TvColor::Yellow, TvColor::Blue);
        let chosen = Attr::new(TvColor::White, TvColor::Cyan);
        let mut buf = DrawBuffer::new(width);
        buf.move_char(0, ' ', attr, width);
        let len = self.data.len();
        let (lo, hi) = if self.sel_start <= self.sel_end { (self.sel_start, self.sel_end) } else { (self.sel_end, self.sel_start) };
        if self.first_pos < len {
            let mut i: usize = 0;
            while i < width && i < len - self.first_pos
                invariant
                    self.first_pos < len,
                    len == self.data@.len(),
                decreases width - i,
            {
                let pos = self.first_pos + i;
                let a = if lo <= pos && pos < hi { chosen } else { attr };
                buf.put_char(i, self.data[pos], a);
                i = i + 1;
            }
            if self.first_pos > 0 {
                buf.put_char(0, '<', attr);
            }
            if len - self.first_pos > width {
                buf.put_char(width - 1, '>', attr);
            }
        }
        terminal.write_row(self.bounds.a.x as i32, self.bounds.a.y as i32, buf.data.as_slice());
    }

    /// Shows the hardware cursor at the text cursor while focused.
    pub fn update_cursor(&self, terminal: &mut Terminal)
        requires
            self.wf(),
            old(terminal).wf(),
        ensures
            old(terminal).cursor_moved_into(*final(terminal)),
    {
        if self.focused && self.cursor_pos - self.first_pos < 65536 {
            let x = self.bounds.a.x as i64 + (self.cursor_pos - self.first_pos) as i64;
            let y = self.bounds.a.y as i64;
            if 0 <= x && x < 65536 && 0 <= y {
                terminal.show_cursor(x as u16, y as u16);
                return;
            }
        }
        let ghost t0 = *terminal;
        assert(t0.cursor_moved_into(t0)) by {
            t0.lemma_drawn_into_refl();
        }
    }
}

fn char_of_ascii(b: u8) -> (r: char)
    requires
        b < 128,
    ensures
        r == b as char,
{
    b as char
}

} // verus!
