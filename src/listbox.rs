//! A scrolling list of strings with one selected item.
use vstd::prelude::*;
use crate::command::CommandId;
use crate::draw::DrawBuffer;
use crate::event::{
    Event, EventType, KB_DOWN, KB_END, KB_ENTER, KB_HOME, KB_PGDN, KB_PGUP, KB_UP, MB_LEFT_BUTTON,
    command_event, nothing_event,
};
use crate::geometry::Rect;
use crate::palette::{Attr, TvColor};
use crate::terminal::Terminal;

verus! {

/// The selection after moving up one item.
pub open spec fn sel_prev(len: nat, sel: Option<usize>) -> Option<usize> {
    if len == 0 {
        sel
    } else {
        match sel {
            Some(s) => if s > 0 { Some((s - 1) as usize) } else { sel },
            None => Some(0),
        }
    }
}

/// The selection after moving down one item.
pub open spec fn sel_next(len: nat, sel: Option<usize>) -> Option<usize> {
    if len == 0 {
        sel
    } else {
        match sel {
            Some(s) => if s + 1 < len { Some((s + 1) as usize) } else { sel },
            None => Some(0),
        }
    }
}

/// The selection after moving up a page of `page` items.
pub open spec fn sel_page_up(len: nat, sel: Option<usize>, page: nat) -> Option<usize> {
    match sel {
        Some(s) => if len == 0 { sel } else if s >= page { Some((s - page) as usize) } else { Some(0) },
        None => None,
    }
}

/// The selection after moving down a page of `page` items.
pub open spec fn sel_page_down(len: nat, sel: Option<usize>, page: nat) -> Option<usize> {
    match sel {
        Some(s) => if len == 0 { sel } else if s + page < len { Some((s + page) as usize) } else { Some((len - 1) as usize) },
        None => None,
    }
}

pub struct ListBox {
    pub bounds: Rect,
    pub items: Vec<String>,
    pub selected: Option<usize>,
    pub top_item: usize,
    pub focused: bool,
    pub on_select_command: CommandId,
}

pub open spec fn listbox_step(pre: ListBox, post: ListBox, ev0: Event, ev1: Event) -> bool {
    &&& post.wf()
    &&& post.items == pre.items
    &&& post.bounds == pre.bounds
    &&& post.focused == pre.focused
    &&& post.on_select_command == pre.on_select_command
    &&& ev0.what == EventType::Keyboard && pre.focused && ev0.key_code == KB_UP
                ==> post.selected == sel_prev(pre.items@.len(), pre.selected) && ev1 == nothing_event()
    &&& ev0.what == EventType::Keyboard && pre.focused && ev0.key_code == KB_DOWN
                ==> post.selected == sel_next(pre.items@.len(), pre.selected) && ev1 == nothing_event()
    &&& ev0.what == EventType::Keyboard && pre.focused && ev0.key_code == KB_PGUP
                ==> post.selected == sel_page_up(pre.items@.len(), pre.selected, pre.page()) && ev1 == nothing_event()
    &&& ev0.what == EventType::Keyboard && pre.focused && ev0.key_code == KB_PGDN
                ==> post.selected == sel_page_down(pre.items@.len(), pre.selected, pre.page()) && ev1 == nothing_event()
    &&& ev0.what == EventType::Keyboard && pre.focused && ev0.key_code == KB_ENTER
                ==> post.selected == pre.selected && ev1 == if pre.selected.is_some() {
                    command_event(pre.on_select_command)
                } else {
                    ev0
                }
    &&& ev0.what == EventType::Keyboard && !pre.focused ==> post == pre && ev1 == ev0
    &&& ev0.what != EventType::Keyboard && ev0.what != EventType::MouseDown
                ==> post == pre && ev1 == ev0
    &&& (ev0.what == EventType::Keyboard && pre.focused && (ev0.key_code == KB_UP || ev0.key_code == KB_DOWN
        || ev0.key_code == KB_PGUP || ev0.key_code == KB_PGDN || ev0.key_code == KB_HOME || ev0.key_code == KB_END)
        ==> post.selection_visible())
}

impl ListBox {
    /// The selection, when there is one, names an item.
    pub open spec fn wf(&self) -> bool {
        match self.selected {
            Some(s) => s < self.items@.len(),
            None => true,
        }
    }

    /// The number of rows shown.
    pub open spec fn page(&self) -> nat {
        if self.bounds.spec_height() > 0 { self.bounds.spec_height() as nat } else { 0 }
    }

    /// The selected item lies in the rows shown.
    pub open spec fn selection_visible(&self) -> bool {
        match self.selected {
            Some(s) => self.page() > 0 ==> self.top_item <= s < self.top_item + self.page(),
            None => true,
        }
    }

    pub fn new(bounds: Rect, on_select_command: CommandId) -> (r: ListBox)
        ensures
            r.wf(),
            r.bounds == bounds,
            r.items@.len() == 0,
            r.selected.is_none(),
            r.top_item == 0,
            !r.focused,
            r.on_select_command == on_select_command,
    {
        ListBox { bounds, items: Vec::new(), selected: None, top_item: 0, focused: false, on_select_command }
    }

    fn page_size(&self) -> (r: usize)
        ensures
            r == self.page(),
    {
        let h = self.bounds.height();
        if h > 0 { h as usize } else { 0 }
    }

    /// Scrolls so that the selected item is shown.
    fn ensure_visible(&mut self)
        requires
            old(self).wf(),
        ensures
            final(self).wf(),
            final(self).selection_visible(),
            final(self).items == old(self).items,
            final(self).selected == old(self).selected,
            final(self).bounds == old(self).bounds,
            final(self).focused == old(self).focused,
            final(self).on_select_command == old(self).on_select_command,
    {
        match self.selected {
            Some(s) => {
                let visible = self.page_size();
                if s < self.top_item {
                    self.top_item = s;
                } else if visible > 0 && s - self.top_item >= visible {
                    self.top_item = s - (visible - 1);
                }
            },
            None => {},
        }
    }

    /// Replaces the items; selects the first when nothing was selected.
    pub fn set_items(&mut self, items: Vec<String>)
        requires
            old(self).wf(),
        ensures
            final(self).wf(),
            final(self).items@ == items@,
            final(self).selected == if items@.len() > 0 && old(self).selected.is_none() {
                Some(0usize)
            } else {
                match old(self).selected {
                    Some(s) => if s < items@.len() { Some(s) } else if items@.len() > 0 { Some((items@.len() - 1) as usize) } else { None },
                    None => None,
                }
            },
            final(self).bounds == old(self).bounds,
            final(self).focused == old(self).focused,
    {
        self.items = items;
        let n = self.items.len();
        match self.selected {
            None => {
                if n > 0 {
                    self.selected = Some(0);
                }
            },
            Some(s) => {
                if s >= n {
                    self.selected = if n > 0 { Some(n - 1) } else { None };
                }
            },
        }
        self.ensure_visible();
    }

    /// Appends an item; the first item added becomes the selection.
    pub fn add_item(&mut self, item: String)
        requires
            old(self).wf(),
        ensures
            final(self).wf(),
            final(self).items@ == old(self).items@.push(item),
            final(self).selected == if old(self).items@.len() == 0 { Some(0usize) } else { old(self).selected },
            final(self).bounds == old(self).bounds,
    {
        self.items.push(item);
        if self.items.len() == 1 {
            self.selected = Some(0);
        }
    }

    pub fn clear(&mut self)
        ensures
            final(self).wf(),
            final(self).items@.len() == 0,
            final(self).selected.is_none(),
            final(self).top_item == 0,
            final(self).bounds == old(self).bounds,
    {
        self.items = Vec::new();
        self.selected = None;
        self.top_item = 0;
    }

    pub fn get_selection(&self) -> (r: Option<usize>)
        ensures
            r == self.selected,
    {
        self.selected
    }

    pub fn get_selected_item(&self) -> (r: Option<&str>)
        requires
            self.wf(),
        ensures
            r.is_some() == self.selected.is_some(),
            r.is_some() ==> r.unwrap()@ == self.items@[self.selected.unwrap() as int]@,
    {
        match self.selected {
            Some(i) => Some(self.items[i].as_str()),
            None => None,
        }
    }

    /// Selects the item at `index`; an index past the end is ignored.
    pub fn set_selection(&mut self, index: usize)
        requires
            old(self).wf(),
        ensures
            final(self).wf(),
            final(self).items == old(self).items,
            final(self).selected == if index < old(self).items@.len() { Some(index) } else { old(self).selected },
            final(self).bounds == old(self).bounds,
    {
        if index < self.items.len() {
            self.selected = Some(index);
            self.ensure_visible();
        }
    }

    pub fn item_count(&self) -> (r: usize)
        ensures
            r == self.items@.len(),
    {
        self.items.len()
    }

    pub fn select_prev(&mut self)
        requires
            old(self).wf(),
        ensures
            final(self).wf(),
            final(self).selection_visible(),
            final(self).items == old(self).items,
            final(self).selected == sel_prev(old(self).items@.len(), old(self).selected),
            final(self).bounds == old(self).bounds,
            final(self).focused == old(self).focused,
            final(self).on_select_command == old(self).on_select_command,
    {
        if self.items.len() == 0 {
            return;
        }
        match self.selected {
            Some(s) => {
                if s > 0 {
                    self.selected = Some(s - 1);
                }
                self.ensure_visible();
            },
            None => {
                self.selected = Some(0);
                self.ensure_visible();
            },
        }
    }

    pub fn select_next(&mut self)
        requires
            old(self).wf(),
        ensures
            final(self).wf(),
            final(self).selection_visible(),
            final(self).items == old(self).items,
            final(self).selected == sel_next(old(self).items@.len(), old(self).selected),
            final(self).bounds == old(self).bounds,
            final(self).focused == old(self).focused,
            final(self).on_select_command == old(self).on_select_command,
    {
        if self.items.len() == 0 {
            return;
        }
        match self.selected {
            Some(s) => {
                if s + 1 < self.items.len() {
                    self.selected = Some(s + 1);
                }
                self.ensure_visible();
            },
            None => {
                self.selected = Some(0);
                self.ensure_visible();
            },
        }
    }

    pub fn select_first(&mut self)
        requires
            old(self).wf(),
        ensures
            final(self).wf(),
            final(self).selection_visible(),
            final(self).items == old(self).items,
            final(self).selected == if old(self).items@.len() > 0 { Some(0usize) } else { old(self).selected },
            final(self).bounds == old(self).bounds,
            final(self).focused == old(self).focused,
            final(self).on_select_command == old(self).on_select_command,
    {
        if self.items.len() > 0 {
            self.selected = Some(0);
            self.top_item = 0;
        }
    }

    pub fn select_last(&mut self)
        requires
            old(self).wf(),
        ensures
            final(self).wf(),
            final(self).selection_visible(),
            final(self).items == old(self).items,
            final(self).selected == if old(self).items@.len() > 0 {
                Some((old(self).items@.len() - 1) as usize)
            } else {
                old(self).selected
            },
            final(self).bounds == old(self).bounds,
            final(self).focused == old(self).focused,
            final(self).on_select_command == old(self).on_select_command,
    {
        if self.items.len() > 0 {
            self.selected = Some(self.items.len() - 1);
            self.ensure_visible();
        }
    }

    pub fn page_up(&mut self)
        requires
            old(self).wf(),
        ensures
            final(self).wf(),
            final(self).selection_visible(),
            final(self).items == old(self).items,
            final(self).selected == sel_page_up(old(self).items@.len(), old(self).selected, old(self).page()),
            final(self).bounds == old(self).bounds,
            final(self).focused == old(self).focused,
            final(self).on_select_command == old(self).on_select_command,
    {
        if self.items.len() == 0 {
            return;
        }
        let page = self.page_size();
        match self.selected {
            Some(s) => {
                self.selected = Some(if s >= page { s - page } else { 0 });
                self.ensure_visible();
            },
            None => {},
        }
    }

    pub fn page_down(&mut self)
        requires
            old(self).wf(),
        ensures
            final(self).wf(),
            final(self).selection_visible(),
            final(self).items == old(self).items,
            final(self).selected == sel_page_down(old(self).items@.len(), old(self).selected, old(self).page()),
            final(self).bounds == old(self).bounds,
            final(self).focused == old(self).focused,
            final(self).on_select_command == old(self).on_select_command,
    {
        let n = self.items.len();
        if n == 0 {
            return;
        }
        let page = self.page_size();
        match self.selected {
            Some(s) => {
                self.selected = Some(if page < n - s { s + page } else { n - 1 });
                self.ensure_visible();
            },
            None => {},
        }
    }

    /// The rows from `top_item` on, the selected one highlighted.
    pub fn draw(&self, terminal: &mut Terminal)
        requires
            old(terminal).wf(),
        ensures
            old(terminal).drawn_into(*final(terminal)),
    {
        let ghost t0 = *terminal;
        proof {
            t0.lemma_drawn_into_refl();
        }
        let w = self.bounds.width();
        let h = self.bounds.height();
        if w <= 0 || h <= 0 {
            return;
        }
        let width = w as usize;
        let normal = if self.focused {
            Attr::new(TvColor::Black, TvColor::White)
        } else {
            Attr::new(TvColor::Black, TvColor::LightGray)
        };
        let chosen = if self.focused {
            Attr::new(TvColor::White, TvColor::Cyan)
        } else {
            Attr::new(TvColor::White, TvColor::Blue)
        };
        let mut y: i32 = 0;
        while y < h
            invariant
                0 <= y <= h,
                h == self.bounds.spec_height(),
                t0.drawn_into(*terminal),
            decreases h - y,
        {
            let mut buf = DrawBuffer::new(width);
            let row = y as usize;
            if row < self.items.len() && self.top_item < self.items.len() - row {
                let idx = self.top_item + row;
                let is_sel = match self.selected {
                    Some(s) => s == idx,
                    None => false,
                };
                let color = if is_sel { chosen } else { normal };
                buf.move_char(0, ' ', color, width);
                buf.move_str(0, self.items[idx].as_str(), color);
            } else {
                buf.move_char(0, ' ', normal, width);
            }
            let ghost tp = *terminal;
            terminal.write_row(self.bounds.a.x as i32, self.bounds.a.y as i32 + y, buf.data.as_slice());
            proof {
                Terminal::lemma_drawn_into_trans(t0, tp, *terminal);
            }
            y = y + 1;
        }
    }

    /// While focused, the arrow, page, Home and End keys move the selection and
    /// are consumed, and Enter fires the select command when there is a
    /// selection. A left click on an item selects it; a click on the item
    /// already selected fires the select command.
    pub fn handle_event(&mut self, event: &mut Event)
        requires
            old(self).wf(),
        ensures
            listbox_step(*old(self), *final(self), *old(event), *final(event)),
    {
        if event.what == EventType::Keyboard {
            if !self.focused {
                return;
            }
            let k = event.key_code;
            if k == KB_UP {
                self.select_prev();
                event.clear();
            } else if k == KB_DOWN {
                self.select_next();
                event.clear();
            } else if k == KB_PGUP {
                self.page_up();
                event.clear();
            } else if k == KB_PGDN {
                self.page_down();
                event.clear();
            } else if k == KB_HOME {
                self.select_first();
                event.clear();
            } else if k == KB_END {
                self.select_last();
                event.clear();
            } else if k == KB_ENTER {
                if self.selected.is_some() {
                    *event = Event::command(self.on_select_command);
                }
            }
        } else if event.what == EventType::MouseDown {
            let p = event.mouse.pos;
            if self.bounds.contains(p) && event.mouse.buttons & MB_LEFT_BUTTON != 0 {
                let rel = (p.y as i32 - self.bounds.a.y as i32) as usize;
                if rel < self.items.len() && self.top_item < self.items.len() - rel {
                    let clicked = self.top_item + rel;
                    let was = match self.selected {
                        Some(s) => s == clicked,
                        None => false,
                    };
                    self.selected = Some(clicked);
                    event.clear();
                    if was {
                        *event = Event::command(self.on_select_command);
                    }
                }
            }
        }
    }
}

} // verus!
