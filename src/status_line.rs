//! The status line: a row of hot keys, each bound to a command.
use vstd::prelude::*;
use crate::command::CommandId;
use crate::draw::DrawBuffer;
use crate::event::{Event, EventType, KeyCode, MB_LEFT_BUTTON, command_event};
use crate::geometry::{Rect, clamp_i16};
use crate::palette::{Attr, TvColor};
use crate::terminal::Terminal;

verus! {

pub struct StatusItem {
    pub text: String,
    pub key_code: KeyCode,
    pub command: CommandId,
}

impl StatusItem {
    pub fn new(text: &str, key_code: KeyCode, command: CommandId) -> (r: StatusItem)
        ensures
            r.text@ == text@,
            r.key_code == key_code,
            r.command == command,
    {
        StatusItem { text: text.to_string(), key_code, command }
    }
}

/// The command of the first item bound to `key`, if any.
pub open spec fn key_command(items: Seq<StatusItem>, key: KeyCode) -> Option<CommandId>
    decreases items.len(),
{
    if items.len() == 0 {
        None
    } else if items[0].key_code == key {
        Some(items[0].command)
    } else {
        key_command(items.drop_first(), key)
    }
}

pub struct StatusLine {
    pub bounds: Rect,
    pub items: Vec<StatusItem>,
    /// The columns, relative to the line, that each drawn item spans.
    pub item_positions: Vec<(i16, i16)>,
}

pub open spec fn status_step(pre: StatusLine, post: StatusLine, ev0: Event, ev1: Event) -> bool {
    &&& (post == pre)
    &&& (ev0.what == EventType::Keyboard ==> ev1 == match key_command(pre.items@, ev0.key_code) {
                Some(c) => command_event(c),
                None => ev0,
            })
    &&& (ev0.what != EventType::Keyboard && ev0.what != EventType::MouseDown ==> ev1 == ev0)
}

impl StatusLine {
    pub fn new(bounds: Rect, items: Vec<StatusItem>) -> (r: StatusLine)
        ensures
            r.bounds == bounds,
            r.items@ == items@,
            r.item_positions@.len() == 0,
    {
        StatusLine { bounds, items, item_positions: Vec::new() }
    }

    /// The items from column 1 on, separated by bars, as many as fit; records
    /// where each one went.
    pub fn draw(&mut self, terminal: &mut Terminal)
        requires
            old(terminal).wf(),
        ensures
            old(terminal).drawn_into(*final(terminal)),
            final(self).items == old(self).items,
            final(self).bounds == old(self).bounds,
    {
        let ghost t0 = *terminal;
        proof {
            t0.lemma_drawn_into_refl();
        }
        self.item_positions = Vec::new();
        let w = self.bounds.width();
        if w <= 0 {
            return;
        }
        let width = w as usize;
        let normal = Attr::new(TvColor::Black, TvColor::LightGray);
        let hot = Attr::new(TvColor::Red, TvColor::LightGray);
        let mut buf = DrawBuffer::new(width);
        buf.move_char(0, ' ', normal, width);
        let mut x: usize = 1;
        let mut i: usize = 0;
        while i < self.items.len()
            invariant
                x <= width + 1,
                width <= 65536,
                self.items == old(self).items,
                self.bounds == old(self).bounds,
            decreases self.items@.len() - i,
        {
            let len = self.items[i].text.unicode_len();
            if len < width && x < width && width - x > len + 2 {
                let start = x;
                let n = buf.move_str_with_shortcut(x, self.items[i].text.as_str(), normal, hot);
                x = x + n;
                self.item_positions.push((clamp_i16(start as i32), clamp_i16(x as i32)));
                buf.move_str(x, " \u{2502} ", normal);
                x = x + 3;
            }
            i = i + 1;
        }
        terminal.write_row(self.bounds.a.x as i32, self.bounds.a.y as i32, buf.data.as_slice());
    }

    /// A left click on a drawn item with a command, or a key bound to an item,
    /// becomes that item's command.
    pub fn handle_event(&mut self, event: &mut Event)
        ensures
            status_step(*old(self), *final(self), *old(event), *final(event)),
    {
        if event.what == EventType::MouseDown {
            let p = event.mouse.pos;
            if event.mouse.buttons & MB_LEFT_BUTTON != 0 && p.y == self.bounds.a.y {
                let mut i: usize = 0;
                while i < self.item_positions.len()
                    invariant
                        *event == *old(event),
                        *self == *old(self),
                        old(event).what == EventType::MouseDown,
                    decreases self.item_positions@.len() - i,
                {
                    if i < self.items.len() {
                        let (s, e) = self.item_positions[i];
                        let xs = self.bounds.a.x as i32 + s as i32;
                        let xe = self.bounds.a.x as i32 + e as i32;
                        if p.x as i32 >= xs && (p.x as i32) < xe && self.items[i].command != 0 {
                            *event = Event::command(self.items[i].command);
                            return;
                        }
                    }
                    i = i + 1;
                }
            }
            return;
        }
        if event.what == EventType::Keyboard {
            let key = event.key_code;
            let mut i: usize = 0;
            assert(self.items@.skip(0) =~= self.items@);
            while i < self.items.len()
                invariant
                    i <= self.items@.len(),
                    *event == *old(event),
                    old(event).what == EventType::Keyboard,
                    key == old(event).key_code,
                    key_command(self.items@, key) == key_command(self.items@.skip(i as int), key),
                decreases self.items@.len() - i,
            {
                let ghost rest = self.items@.skip(i as int);
                assert(rest[0] == self.items@[i as int]);
                assert(rest.drop_first() =~= self.items@.skip(i + 1));
                if self.items[i].key_code == key {
                    *event = Event::command(self.items[i].command);
                    return;
                }
                i = i + 1;
            }
            assert(self.items@.skip(i as int).len() == 0);
        }
    }
}

} // verus!
