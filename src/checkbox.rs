//! Check boxes and radio buttons: one-row controls with a mark and a label.
use vstd::prelude::*;
use crate::draw::DrawBuffer;
use crate::event::{Event, EventType, nothing_event};
use crate::geometry::Rect;
use crate::palette::{Attr, TvColor};
use crate::terminal::Terminal;
use crate::view::StateFlags;

verus! {

/// Draws a one-row control: `mark` then the label, padded to the width.
fn draw_marked(terminal: &mut Terminal, bounds: Rect, mark: &str, label: &str, focused: bool)
    requires
        old(terminal).wf(),
    ensures
        old(terminal).drawn_into(*final(terminal)),
{
    let ghost t0 = *terminal;
    proof {
        t0.lemma_drawn_into_refl();
    }
    let w = bounds.width();
    if w <= 0 {
        return;
    }
    let width = w as usize;
    let mut buf = DrawBuffer::new(width);
    let color = if focused {
        Attr::new(TvColor::Yellow, TvColor::Blue)
    } else {
        Attr::new(TvColor::Black, TvColor::LightGray)
    };
    let hot = if focused {
        Attr::new(TvColor::LightRed, TvColor::Blue)
    } else {
        Attr::new(TvColor::Red, TvColor::LightGray)
    };
    let n = buf.move_str(0, mark, color);
    let x = if n < width { n } else { width };
    let written = buf.move_str_with_shortcut(x, label, color, hot);
    if written < width - x {
        buf.move_char(x + written, ' ', color, width - x - written);
    }
    terminal.write_row(bounds.a.x as i32, bounds.a.y as i32, buf.data.as_slice());
}

/// A check box: space toggles it while it has focus.
pub struct CheckBox {
    pub bounds: Rect,
    pub label: String,
    pub checked: bool,
    pub focused: bool,
    pub state: StateFlags,
}

pub open spec fn checkbox_step(pre: CheckBox, post: CheckBox, ev0: Event, ev1: Event) -> bool {
    &&& post.bounds == pre.bounds
    &&& post.focused == pre.focused
    &&& post.state == pre.state
    &&& post.label == pre.label
    &&& (ev0.what == EventType::Keyboard && pre.focused && ev0.key_code == 0x20)
                ==> post.checked == !pre.checked && ev1 == nothing_event()
    &&& !(ev0.what == EventType::Keyboard && pre.focused && ev0.key_code == 0x20)
                ==> post.checked == pre.checked && ev1 == ev0
}

impl CheckBox {
    pub fn new(bounds: Rect, label: &str) -> (r: CheckBox)
        ensures
            r.bounds == bounds,
            r.label@ == label@,
            !r.checked,
            !r.focused,
            r.state == 0,
    {
        CheckBox { bounds, label: label.to_string(), checked: false, focused: false, state: 0 }
    }

    pub fn set_checked(&mut self, checked: bool)
        ensures
            *final(self) == (CheckBox { checked, ..*old(self) }),
    {
        self.checked = checked;
    }

    pub fn is_checked(&self) -> (r: bool)
        ensures
            r == self.checked,
    {
        self.checked
    }

    pub fn toggle(&mut self)
        ensures
            *final(self) == (CheckBox { checked: !old(self).checked, ..*old(self) }),
    {
        self.checked = !self.checked;
    }

    pub fn label(&self) -> (r: &str)
        ensures
            r@ == self.label@,
    {
        self.label.as_str()
    }

    pub fn draw(&self, terminal: &mut Terminal)
        requires
            old(terminal).wf(),
        ensures
            old(terminal).drawn_into(*final(terminal)),
    {
        let mark = if self.checked { "[X] " } else { "[ ] " };
        draw_marked(terminal, self.bounds, mark, self.label.as_str(), self.focused);
    }

    /// Space toggles the box while it has focus, and is consumed.
    pub fn handle_event(&mut self, event: &mut Event)
        ensures
            checkbox_step(*old(self), *final(self), *old(event), *final(event)),
    {
        if event.what == EventType::Keyboard && self.focused && event.key_code == 0x20 {
            self.toggle();
            event.clear();
        }
    }
}

/// A radio button of a numbered group: space selects it while it has focus.
pub struct RadioButton {
    pub bounds: Rect,
    pub label: String,
    pub group_id: u16,
    pub selected: bool,
    pub focused: bool,
}

pub open spec fn radio_step(pre: RadioButton, post: RadioButton, ev0: Event, ev1: Event) -> bool {
    &&& post.bounds == pre.bounds
    &&& post.focused == pre.focused
    &&& post.group_id == pre.group_id
    &&& post.label == pre.label
    &&& (ev0.what == EventType::Keyboard && pre.focused && ev0.key_code == 0x20)
                ==> post.selected && ev1 == nothing_event()
    &&& !(ev0.what == EventType::Keyboard && pre.focused && ev0.key_code == 0x20)
                ==> post.selected == pre.selected && ev1 == ev0
}

impl RadioButton {
    pub fn new(bounds: Rect, label: &str, group_id: u16) -> (r: RadioButton)
        ensures
            r.bounds == bounds,
            r.label@ == label@,
            r.group_id == group_id,
            !r.selected,
            !r.focused,
    {
        RadioButton { bounds, label: label.to_string(), group_id, selected: false, focused: false }
    }

    pub fn set_selected(&mut self, selected: bool)
        ensures
            *final(self) == (RadioButton { selected, ..*old(self) }),
    {
        self.selected = selected;
    }

    pub fn is_selected(&self) -> (r: bool)
        ensures
            r == self.selected,
    {
        self.selected
    }

    pub fn group_id(&self) -> (r: u16)
        ensures
            r == self.group_id,
    {
        self.group_id
    }

    pub fn select(&mut self)
        ensures
            *final(self) == (RadioButton { selected: true, ..*old(self) }),
    {
        self.selected = true;
    }

    pub fn deselect(&mut self)
        ensures
            *final(self) == (RadioButton { selected: false, ..*old(self) }),
    {
        self.selected = false;
    }

    pub fn label(&self) -> (r: &str)
        ensures
            r@ == self.label@,
    {
        self.label.as_str()
    }

    pub fn draw(&self, terminal: &mut Terminal)
        requires
            old(terminal).wf(),
        ensures
            old(terminal).drawn_into(*final(terminal)),
    {
        let mark = if self.selected { "(\u{2022}) " } else { "( ) " };
        draw_marked(terminal, self.bounds, mark, self.label.as_str(), self.focused);
    }

    /// Space selects the button while it has focus, and is consumed.
    pub fn handle_event(&mut self, event: &mut Event)
        ensures
            radio_step(*old(self), *final(self), *old(event), *final(event)),
    {
        if event.what == EventType::Keyboard && self.focused && event.key_code == 0x20 {
            self.select();
            event.clear();
        }
    }
}

} // verus!
