//! Static labels, patterned backgrounds, and the label builder.
use vstd::prelude::*;
use crate::draw::{Cell, DrawBuffer};
use crate::geometry::Rect;
use crate::palette::{Attr, TvColor};
use crate::terminal::Terminal;

verus! {

/// A one-row text with an optional `~` shortcut, optionally linked to the
/// control at an index of the same container.
pub struct Label {
    pub bounds: Rect,
    pub text: String,
    pub link: Option<usize>,
    pub focused: bool,
}

impl Label {
    pub fn new(bounds: Rect, text: &str) -> (r: Label)
        ensures
            r.bounds == bounds,
            r.text@ == text@,
            r.link.is_none(),
    {
        Label { bounds, text: text.to_string(), link: None, focused: false }
    }

    /// Links the label to the control at `index` of its container.
    pub fn set_link(&mut self, index: usize)
        ensures
            final(self).link == Some(index),
            final(self).bounds == old(self).bounds,
            final(self).text == old(self).text,
    {
        self.link = Some(index);
    }

    /// The index of the linked control, if any.
    pub fn label_link(&self) -> (r: Option<usize>)
        ensures
            r == self.link,
    {
        self.link
    }

    pub fn text(&self) -> (r: &str)
        ensures
            r@ == self.text@,
    {
        self.text.as_str()
    }

    pub fn draw(&self, terminal: &mut Terminal)
        requires
            old(terminal).wf(),
        ensures
            old(terminal).drawn_into(*final(terminal)),
    {
        let ghost t0 = *terminal;
        proof {
            t0.lemma_drawn_into_refl();
        }
        let w = self.bounds.width();
        if w <= 0 {
            return;
        }
        let width = w as usize;
        let normal = Attr::new(TvColor::Black, TvColor::LightGray);
        let hot = Attr::new(TvColor::Yellow, TvColor::LightGray);
        let mut buf = DrawBuffer::new(width);
        buf.move_char(0, ' ', normal, width);
        buf.move_str_with_shortcut(0, self.text.as_str(), normal, hot);
        terminal.write_row(self.bounds.a.x as i32, self.bounds.a.y as i32, buf.data.as_slice());
    }
}

/// Collects a label's parts; `build` needs the bounds and the text.
pub struct LabelBuilder {
    pub bounds: Option<Rect>,
    pub text: Option<String>,
    pub link: Option<usize>,
}

impl LabelBuilder {
    pub fn new() -> (r: LabelBuilder)
        ensures
            r.bounds.is_none() && r.text.is_none() && r.link.is_none(),
    {
        LabelBuilder { bounds: None, text: None, link: None }
    }

    pub fn bounds(self, bounds: Rect) -> (r: LabelBuilder)
        ensures
            r.bounds == Some(bounds),
            r.text == self.text,
            r.link == self.link,
    {
        LabelBuilder { bounds: Some(bounds), ..self }
    }

    pub fn text(self, text: &str) -> (r: LabelBuilder)
        ensures
            r.text.is_some() && r.text.unwrap()@ == text@,
            r.bounds == self.bounds,
            r.link == self.link,
    {
        LabelBuilder { text: Some(text.to_string()), ..self }
    }

    pub fn link(self, index: usize) -> (r: LabelBuilder)
        ensures
            r.link == Some(index),
            r.bounds == self.bounds,
            r.text == self.text,
    {
        LabelBuilder { link: Some(index), ..self }
    }

    pub fn build(self) -> (r: Label)
        requires
            self.bounds.is_some(),
            self.text.is_some(),
        ensures
            r.bounds == self.bounds.unwrap(),
            r.text@ == self.text.unwrap()@,
            r.link == self.link,
    {
        let bounds = self.bounds.unwrap();
        let text = self.text.unwrap();
        Label { bounds, text, link: self.link, focused: false }
    }

    pub fn build_boxed(self) -> (r: Box<Label>)
        requires
            self.bounds.is_some(),
            self.text.is_some(),
        ensures
            r.bounds == self.bounds.unwrap(),
            r.text@ == self.text.unwrap()@,
            r.link == self.link,
    {
        Box::new(self.build())
    }
}

/// A rectangle filled with one pattern character.
pub struct Background {
    pub bounds: Rect,
    pub pattern: char,
    pub focused: bool,
}

impl Background {
    /// A background of light shade.
    pub fn new(bounds: Rect) -> (r: Background)
        ensures
            r.bounds == bounds,
            r.pattern == '\u{2591}',
    {
        Background { bounds, pattern: '\u{2591}', focused: false }
    }

    pub fn with_pattern(bounds: Rect, pattern: char) -> (r: Background)
        ensures
            r.bounds == bounds,
            r.pattern == pattern,
    {
        Background { bounds, pattern, focused: false }
    }

    pub fn set_pattern(&mut self, pattern: char)
        ensures
            final(self).pattern == pattern,
            final(self).bounds == old(self).bounds,
    {
        self.pattern = pattern;
    }

    pub fn get_pattern(&self) -> (r: char)
        ensures
            r == self.pattern,
    {
        self.pattern
    }

    pub fn bounds(&self) -> (r: Rect)
        ensures
            r == self.bounds,
    {
        self.bounds
    }

    pub fn set_bounds(&mut self, bounds: Rect)
        ensures
            final(self).bounds == bounds,
            final(self).pattern == old(self).pattern,
    {
        self.bounds = bounds;
    }

    pub fn checkered_light(bounds: Rect) -> (r: Background)
        ensures
            r.bounds == bounds && r.pattern == '\u{2591}',
    {
        Self::with_pattern(bounds, '\u{2591}')
    }

    pub fn checkered_medium(bounds: Rect) -> (r: Background)
        ensures
            r.bounds == bounds && r.pattern == '\u{2592}',
    {
        Self::with_pattern(bounds, '\u{2592}')
    }

    pub fn checkered_dark(bounds: Rect) -> (r: Background)
        ensures
            r.bounds == bounds && r.pattern == '\u{2593}',
    {
        Self::with_pattern(bounds, '\u{2593}')
    }

    pub fn solid(bounds: Rect) -> (r: Background)
        ensures
            r.bounds == bounds && r.pattern == '\u{2588}',
    {
        Self::with_pattern(bounds, '\u{2588}')
    }

    pub fn dots(bounds: Rect) -> (r: Background)
        ensures
            r.bounds == bounds && r.pattern == '\u{00b7}',
    {
        Self::with_pattern(bounds, '\u{00b7}')
    }

    pub fn cross(bounds: Rect) -> (r: Background)
        ensures
            r.bounds == bounds && r.pattern == '\u{253c}',
    {
        Self::with_pattern(bounds, '\u{253c}')
    }

    pub fn blank(bounds: Rect) -> (r: Background)
        ensures
            r.bounds == bounds && r.pattern == ' ',
    {
        Self::with_pattern(bounds, ' ')
    }

    /// Fills the bounds with the pattern, light grey on dark grey.
    pub fn draw(&self, terminal: &mut Terminal)
        requires
            old(terminal).wf(),
        ensures
            old(terminal).drawn_into(*final(terminal)),
    {
        fill_rect(terminal, self.bounds, self.pattern, Attr::new(TvColor::LightGray, TvColor::DarkGray));
    }
}

/// Fills a rectangle with one character: every cell of `bounds` that the clip
/// region admits becomes `ch` in `attr`, and no other cell changes.
pub fn fill_rect(terminal: &mut Terminal, bounds: Rect, ch: char, attr: Attr)
    requires
        old(terminal).wf(),
    ensures
        old(terminal).drawn_into(*final(terminal)),
        forall|x: int, y: int|
            old(terminal).in_screen(x, y) ==> #[trigger] final(terminal).cell(x, y) == if old(terminal).writable(x, y)
                && bounds.spec_contains(x, y) {
                Cell { ch, attr }
            } else {
                old(terminal).cell(x, y)
            },
{
    let ghost t0 = *terminal;
    proof {
        t0.lemma_drawn_into_refl();
    }
    let w = bounds.width();
    let h = bounds.height();
    if w <= 0 || h <= 0 {
        return;
    }
    let mut buf = DrawBuffer::new(w as usize);
    buf.move_char(0, ch, attr, w as usize);
    assert(forall|k: int| 0 <= k < w ==> buf.data@[k] == (Cell { ch, attr }));
    let mut y: i32 = 0;
    while y < h
        invariant
            0 <= y <= h,
            h == bounds.spec_height(),
            w == bounds.spec_width(),
            buf.data@.len() == w,
            forall|k: int| 0 <= k < w ==> buf.data@[k] == (Cell { ch, attr }),
            t0.drawn_into(*terminal),
            forall|x: int, yy: int|
                t0.in_screen(x, yy) ==> #[trigger] terminal.cell(x, yy) == if t0.writable(x, yy) && bounds.spec_contains(x, yy)
                    && yy < bounds.a.y + y {
                    Cell { ch, attr }
                } else {
                    t0.cell(x, yy)
                },
        decreases h - y,
    {
        let ghost tp = *terminal;
        terminal.write_row(bounds.a.x as i32, bounds.a.y as i32 + y, buf.data.as_slice());
        proof {
            Terminal::lemma_drawn_into_trans(t0, tp, *terminal);
            assert forall|x: int, yy: int|
                t0.in_screen(x, yy) implies #[trigger] terminal.cell(x, yy) == if t0.writable(x, yy) && bounds.spec_contains(x, yy)
                    && yy < bounds.a.y + y + 1 {
                    Cell { ch, attr }
                } else {
                    t0.cell(x, yy)
                } by {
                assert(tp.writable(x, yy) == t0.writable(x, yy));
                assert(tp.in_screen(x, yy));
            }
        }
        y = y + 1;
    }
}

} // verus!
