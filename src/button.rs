//! A push button bound to a command.
use vstd::prelude::*;
use crate::command::{CommandId, CommandSet, CM_COMMAND_SET_CHANGED};
use crate::draw::{DrawBuffer, plain_len};
use crate::event::{Event, EventType, KB_ENTER, MB_LEFT_BUTTON, command_event};
use crate::geometry::Rect;
use crate::palette::{Attr, TvColor};
use crate::terminal::Terminal;
use crate::view::{Context, StateFlags, SF_DISABLED, SF_FOCUSED, is_command_set_changed};

verus! {

pub const SHADOW_TOP: char = '\u{2584}';
pub const SHADOW_SOLID: char = '\u{2588}';
pub const SHADOW_BOTTOM: char = '\u{2580}';

/// A button: pressing it (Enter or space while focused, or a left click on its
/// face) turns the event into its command, unless it is disabled.
pub struct Button {
    pub bounds: Rect,
    pub title: String,
    pub command: CommandId,
    pub is_default: bool,
    pub focused: bool,
    pub disabled: bool,
}

/// Whether a button in this state turns `e` into its command.
pub open spec fn button_fires(b: Button, e: Event) -> bool {
    &&& !b.disabled
    &&& {
        ||| (e.what == EventType::Keyboard && b.focused && (e.key_code == KB_ENTER || e.key_code
            == 0x20))
        ||| (e.what == EventType::MouseDown && e.mouse.buttons & MB_LEFT_BUTTON != 0 && b.bounds.a.x
            <= e.mouse.pos.x < b.bounds.b.x && b.bounds.a.y <= e.mouse.pos.y < b.bounds.b.y - 1)
    }
}

pub open spec fn button_step(pre: Button, post: Button, ev0: Event, ev1: Event, cmds: CommandSet) -> bool {
    &&& post.bounds == pre.bounds
    &&& post.title == pre.title
    &&& post.focused == pre.focused
    &&& post.command == pre.command
    &&& post.is_default == pre.is_default
    &&& is_command_set_changed(ev0) ==> post.disabled == !cmds.spec_enabled(pre.command)
    &&& !is_command_set_changed(ev0) ==> post.disabled == pre.disabled
    &&& button_fires(pre, ev0) ==> ev1 == command_event(pre.command)
    &&& !button_fires(pre, ev0) ==> ev1 == ev0
}

impl Button {
    pub fn new(bounds: Rect, title: &str, command: CommandId, is_default: bool) -> (r: Button)
        ensures
            r.bounds == bounds,
            r.title@ == title@,
            r.command == command,
            r.is_default == is_default,
            !r.focused,
            !r.disabled,
    {
        Button { bounds, title: title.to_string(), command, is_default, focused: false, disabled: false }
    }

    pub fn title(&self) -> (r: &str)
        ensures
            r@ == self.title@,
    {
        self.title.as_str()
    }

    pub fn command(&self) -> (r: CommandId)
        ensures
            r == self.command,
    {
        self.command
    }

    pub fn is_disabled(&self) -> (r: bool)
        ensures
            r == self.disabled,
    {
        self.disabled
    }

    pub fn set_disabled(&mut self, disabled: bool)
        ensures
            *final(self) == (Button { disabled, ..*old(self) }),
    {
        self.disabled = disabled;
    }

    pub fn state(&self) -> (r: StateFlags)
        ensures
            (r & SF_FOCUSED != 0) == self.focused,
            (r & SF_DISABLED != 0) == self.disabled,
    {
        let f: u16 = if self.focused { SF_FOCUSED } else { 0 };
        let d: u16 = if self.disabled { SF_DISABLED } else { 0 };
        let r = f | d;
        assert((r & SF_FOCUSED != 0) == (f != 0) && (r & SF_DISABLED != 0) == (d != 0)) by (bit_vector)
            requires
                r == f | d,
                f == 0 || f == 0x0040,
                d == 0 || d == 0x0100,
        ;
        r
    }

    /// The face with a shadow on its right, the title centred on the middle row,
    /// and a shadow row beneath.
    pub fn draw(&self, terminal: &mut Terminal)
        requires
            old(terminal).wf(),
        ensures
            old(terminal).drawn_into(*final(terminal)),
    {
        let ghost t0 = *terminal;
        proof {
            t0.lemma_drawn_into_refl();
        }
        let w = self.bounds.width();
        let h = self.bounds.height();
        if w < 2 || h < 2 {
            return;
        }
        let width = w as usize;
        let face = if self.focused {
            Attr::new(TvColor::White, TvColor::Green)
        } else if self.is_default {
            Attr::new(TvColor::LightGreen, TvColor::Green)
        } else {
            Attr::new(TvColor::Black, TvColor::Green)
        };
        let shadow = Attr::new(TvColor::LightGray, TvColor::DarkGray);
        let hot = if self.focused {
            Attr::new(TvColor::White, TvColor::Green)
        } else {
            Attr::new(TvColor::Yellow, TvColor::Green)
        };
        let label_len = plain_len(self.title.as_str());
        let content = width - 1;
        let start = if content > label_len { (content - label_len) / 2 } else { 0 };
        let mut y: i32 = 0;
        while y < h - 1
            invariant
                0 <= y <= h - 1,
                h == self.bounds.spec_height(),
                width == self.bounds.spec_width(),
                width >= 2,
                t0.drawn_into(*terminal),
            decreases h - 1 - y,
        {
            let mut buf = DrawBuffer::new(width);
            buf.move_char(0, ' ', face, width);
            let sc = if y == 0 { SHADOW_TOP } else { SHADOW_SOLID };
            buf.put_char(width - 1, sc, shadow);
            if y == (h - 1) / 2 {
                buf.move_str_with_shortcut(start, self.title.as_str(), face, hot);
            }
            let ghost tp = *terminal;
            terminal.write_row(self.bounds.a.x as i32, self.bounds.a.y as i32 + y, buf.data.as_slice());
            proof {
                Terminal::lemma_drawn_into_trans(t0, tp, *terminal);
            }
            y = y + 1;
        }
        let mut bottom = DrawBuffer::new(width - 1);
        bottom.move_char(0, SHADOW_BOTTOM, shadow, width - 1);
        let ghost tp = *terminal;
        terminal.write_row(self.bounds.a.x as i32 + 1, self.bounds.a.y as i32 + h - 1, bottom.data.as_slice());
        proof {
            Terminal::lemma_drawn_into_trans(t0, tp, *terminal);
        }
    }

    /// Fires the command when pressed; on the command-set broadcast, takes its
    /// enabled state from the command set.
    pub fn handle_event(&mut self, event: &mut Event, ctx: &mut Context)
        ensures
            final(ctx).commands == old(ctx).commands,
            button_step(*old(self), *final(self), *old(event), *final(event), old(ctx).commands),
    {
        if event.what == EventType::Broadcast && event.command == CM_COMMAND_SET_CHANGED {
            self.disabled = !ctx.commands.is_enabled(self.command);
            return;
        }
        if self.disabled {
            return;
        }
        if event.what == EventType::Keyboard {
            if self.focused && (event.key_code == KB_ENTER || event.key_code == 0x20) {
                *event = Event::command(self.command);
            }
        } else if event.what == EventType::MouseDown {
            let p = event.mouse.pos;
            if event.mouse.buttons & MB_LEFT_BUTTON != 0 && p.x >= self.bounds.a.x && p.x < self.bounds.b.x
                && p.y >= self.bounds.a.y && (p.y as i32) < self.bounds.b.y as i32 - 1 {
                *event = Event::command(self.command);
            }
        }
    }
}

} // verus!
