//! Windows (a frame, a drop shadow and an interior container), dialogs (modal
//! windows with Enter and double-Escape rules) and the desktop.
use vstd::prelude::*;
use crate::command::{CommandId, CommandSet, CM_CANCEL, CM_CLOSE};
use crate::control::{Control, default_command};
use crate::draw::{Cell, DrawBuffer};
use crate::event::{Event, EventType, KB_ENTER, KB_ESC_ESC, MB_LEFT_BUTTON, command_event, nothing_event};
use crate::geometry::{Point, Rect, clamp16};
use crate::group::{Group, same_but_focus};
use crate::label::fill_rect;
use crate::palette::{Attr, TvColor};
use crate::terminal::Terminal;
use crate::view::{Context, SF_MODAL, SF_SHADOW, StateFlags, Widget, is_command_set_changed};

verus! {

/// The interior of a window: its bounds inset by the one-cell frame.
pub open spec fn interior_of(b: Rect) -> Rect {
    Rect {
        a: Point { x: clamp16(b.a.x + 1) as i16, y: clamp16(b.a.y + 1) as i16 },
        b: Point { x: clamp16(b.b.x - 1) as i16, y: clamp16(b.b.y - 1) as i16 },
    }
}

fn inset(b: Rect) -> (r: Rect)
    ensures
        r == interior_of(b),
{
    let mut r = b;
    r.grow(-1, -1);
    r
}

/// Whether a press at `p` hits the close box of a frame with bounds `b`.
pub open spec fn on_close_box(b: Rect, p: Point) -> bool {
    p.y == b.a.y && b.a.x + 2 <= p.x < b.a.x + 5
}

/// The event after the frame's rule: a left press on the close box becomes close.
pub open spec fn frame_result(b: Rect, e: Event) -> Event {
    if e.what == EventType::MouseDown && e.mouse.buttons & MB_LEFT_BUTTON != 0 && on_close_box(b, e.mouse.pos) {
        command_event(CM_CLOSE)
    } else {
        e
    }
}

/// The event after a dialog's own rules, with `kids` its children: a double
/// Escape becomes cancel; Enter becomes the default button's command when it is
/// enabled and is cleared otherwise; anything else is left.
pub open spec fn dialog_keys(kids: Seq<Control>, e: Event) -> Event {
    if e.what == EventType::Keyboard && e.key_code == KB_ESC_ESC {
        command_event(CM_CANCEL)
    } else if e.what == EventType::Keyboard && e.key_code == KB_ENTER {
        match default_command(kids) {
            Some(c) => command_event(c),
            None => nothing_event(),
        }
    } else {
        e
    }
}

/// Writes one cell at a position that may lie off the screen.
fn put_cell(terminal: &mut Terminal, x: i32, y: i32, cell: Cell)
    requires
        old(terminal).wf(),
        -200000 <= x <= 200000,
        -200000 <= y <= 200000,
    ensures
        old(terminal).drawn_into(*final(terminal)),
{
    let one: [Cell; 1] = [cell];
    terminal.write_row(x, y, &one);
}

/// Darkens the cells one column right of and one row below `b`.
fn draw_shadow(terminal: &mut Terminal, b: Rect)
    requires
        old(terminal).wf(),
    ensures
        old(terminal).drawn_into(*final(terminal)),
{
    let ghost t0 = *terminal;
    proof {
        t0.lemma_drawn_into_refl();
    }
    let attr = Attr::new(TvColor::DarkGray, TvColor::Black);
    let mut y: i32 = b.a.y as i32 + 1;
    while y <= b.b.y as i32
        invariant
            t0.drawn_into(*terminal),
            b.a.y + 1 <= y <= b.b.y + 1 || y == b.a.y + 1,
        decreases b.b.y + 1 - y,
    {
        let mut dx: i32 = 0;
        while dx < 2
            invariant
                0 <= dx <= 2,
                -32767 <= y <= 32768,
                t0.drawn_into(*terminal),
            decreases 2 - dx,
        {
            let x = b.b.x as i32 + dx;
            let ghost tp = *terminal;
            if 0 <= x && x < 65536 && 0 <= y && y < 65536 {
                match terminal.cell_at(x as u16, y as u16) {
                    Some(c) => {
                        put_cell(terminal, x, y, Cell { ch: c.ch, attr });
                    },
                    None => {},
                }
            }
            proof {
                Terminal::lemma_drawn_into_trans(t0, tp, *terminal);
            }
            dx = dx + 1;
        }
        y = y + 1;
    }
    let mut x: i32 = b.a.x as i32 + 2;
    let yb = b.b.y as i32;
    while x < b.b.x as i32
        invariant
            t0.drawn_into(*terminal),
            x >= b.a.x + 2,
        decreases b.b.x - x,
    {
        let ghost tp = *terminal;
        if 0 <= x && x < 65536 && 0 <= yb && yb < 65536 {
            match terminal.cell_at(x as u16, yb as u16) {
                Some(c) => {
                    put_cell(terminal, x, yb, Cell { ch: c.ch, attr });
                },
                None => {},
            }
        }
        proof {
            Terminal::lemma_drawn_into_trans(t0, tp, *terminal);
        }
        x = x + 1;
    }
}

/// A framed window whose children sit in an interior container.
pub struct Window {
    bounds: Rect,
    title: String,
    interior: Group<Control>,
    state: StateFlags,
    focused: bool,
}

impl Window {
    pub closed spec fn spec_interior(&self) -> Group<Control> {
        self.interior
    }

    pub closed spec fn spec_state(&self) -> StateFlags {
        self.state
    }

    pub closed spec fn spec_window_bounds(&self) -> Rect {
        self.bounds
    }

    pub closed spec fn spec_window_focused(&self) -> bool {
        self.focused
    }

    pub closed spec fn spec_title(&self) -> Seq<char> {
        self.title@
    }

    pub open spec fn wf(&self) -> bool {
        self.spec_interior().wf()
    }

    /// A window with a shadow and an empty interior inset by the frame.
    pub fn new(bounds: Rect, title: &str) -> (r: Window)
        ensures
            r.wf(),
            r.spec_window_bounds() == bounds,
            r.spec_interior().kids().len() == 0,
            r.spec_interior().group_bounds() == interior_of(bounds),
            r.spec_state() == SF_SHADOW,
            !r.spec_window_focused(),
            r.spec_title() == title@,
    {
        let interior = Group::with_background(inset(bounds), Attr::new(TvColor::Black, TvColor::LightGray));
        Window { bounds, title: title.to_string(), interior, state: SF_SHADOW, focused: false }
    }

    /// Adds a control whose bounds are relative to the interior's origin.
    pub fn add(&mut self, view: Control)
        requires
            old(self).wf(),
            view.inv(),
        ensures
            final(self).wf(),
            final(self).spec_window_bounds() == old(self).spec_window_bounds(),
            final(self).spec_state() == old(self).spec_state(),
            final(self).spec_window_focused() == old(self).spec_window_focused(),
            final(self).spec_title() == old(self).spec_title(),
            final(self).spec_interior().kids().len() == old(self).spec_interior().kids().len() + 1,
            forall|i: int| 0 <= i < old(self).spec_interior().kids().len() ==> #[trigger] final(self).spec_interior().kids()[i] == old(self).spec_interior().kids()[i],
            final(self).spec_interior().kids().last().spec_can_focus() == view.spec_can_focus(),
            final(self).spec_interior().kids().last().spec_command() == view.spec_command(),
            final(self).spec_interior().kids().last().spec_is_default() == view.spec_is_default(),
            final(self).spec_interior().kids().last().spec_text() == view.spec_text(),
            final(self).spec_interior().kids().last().spec_bounds() == view.spec_bounds().spec_moved(
                old(self).spec_interior().group_bounds().a.x as int,
                old(self).spec_interior().group_bounds().a.y as int,
            ),
    {
        self.interior.add(view);
    }

    pub fn set_initial_focus(&mut self)
        requires
            old(self).wf(),
        ensures
            final(self).wf(),
            final(self).spec_window_bounds() == old(self).spec_window_bounds(),
            final(self).spec_state() == old(self).spec_state(),
            final(self).spec_interior().kids().len() == old(self).spec_interior().kids().len(),
            forall|i: int| 0 <= i < old(self).spec_interior().kids().len() ==> same_but_focus(old(self).spec_interior().kids()[i], #[trigger] final(self).spec_interior().kids()[i]),
            final(self).spec_title() == old(self).spec_title(),
    {
        self.interior.set_initial_focus();
    }

    /// Focuses the child at `index`; an index out of range is ignored.
    pub fn set_focus_to_child(&mut self, index: usize)
        requires
            old(self).wf(),
        ensures
            final(self).wf(),
            final(self).spec_window_bounds() == old(self).spec_window_bounds(),
            final(self).spec_state() == old(self).spec_state(),
    {
        self.interior.set_focus_to(index);
    }

    pub fn child_count(&self) -> (r: usize)
        ensures
            r == self.spec_interior().kids().len(),
    {
        self.interior.len()
    }

    pub fn child_at(&self, index: usize) -> (r: &Control)
        requires
            index < self.spec_interior().kids().len(),
        ensures
            *r == self.spec_interior().kids()[index as int],
    {
        self.interior.child_at(index)
    }

    pub fn child_at_mut(&mut self, index: usize) -> (r: &mut Control)
        requires
            index < old(self).spec_interior().kids().len(),
        ensures
            *r == old(self).spec_interior().kids()[index as int],
            final(self).spec_interior().kids() == old(self).spec_interior().kids().update(index as int, *final(r)),
            final(self).spec_window_bounds() == old(self).spec_window_bounds(),
            final(self).spec_state() == old(self).spec_state(),
    {
        self.interior.child_at_mut(index)
    }

    /// The bounds together with the shadow's extent.
    pub fn shadow_bounds(&self) -> (r: Rect)
        ensures
            r.a == self.spec_window_bounds().a,
            r.b.x == clamp16(self.spec_window_bounds().b.x + 2),
            r.b.y == clamp16(self.spec_window_bounds().b.y + 1),
    {
        let mut r = self.bounds;
        r.b.x = crate::geometry::clamp_i16(r.b.x as i32 + 2);
        r.b.y = crate::geometry::clamp_i16(r.b.y as i32 + 1);
        r
    }

    /// The frame's rule: a left press on the close box becomes the close command.
    pub fn frame_event(&self, event: &mut Event)
        ensures
            old(event).what == EventType::MouseDown && old(event).mouse.buttons & MB_LEFT_BUTTON != 0
                && on_close_box(self.spec_window_bounds(), old(event).mouse.pos) ==> *final(event) == command_event(CM_CLOSE),
            !(old(event).what == EventType::MouseDown && old(event).mouse.buttons & MB_LEFT_BUTTON != 0
                && on_close_box(self.spec_window_bounds(), old(event).mouse.pos)) ==> *final(event) == *old(event),
    {
        if event.what == EventType::MouseDown && event.mouse.buttons & MB_LEFT_BUTTON != 0 {
            let p = event.mouse.pos;
            if p.y == self.bounds.a.y && p.x as i32 >= self.bounds.a.x as i32 + 2 && (p.x as i32) < self.bounds.a.x as i32 + 5 {
                *event = Event::command(CM_CLOSE);
            }
        }
    }

    /// The double-line border with the close box and the centred title.
    fn draw_frame(&self, terminal: &mut Terminal)
        requires
            old(terminal).wf(),
        ensures
            old(terminal).drawn_into(*final(terminal)),
    {
        let ghost t0 = *terminal;
        proof {
            t0.lemma_drawn_into_refl();
        }
        let w = self.bounds.width();
        let h = self.bounds.height();
        if w < 2 || h < 2 {
            return;
        }
        let width = w as usize;
        let attr = Attr::new(TvColor::White, TvColor::LightGray);
        let mut top = DrawBuffer::new(width);
        top.move_char(0, '\u{2550}', attr, width);
        top.put_char(0, '\u{2554}', attr);
        top.put_char(width - 1, '\u{2557}', attr);
        top.move_str(2, "[\u{25a0}]", attr);
        let tlen = self.title.unicode_len();
        if tlen < width && width - tlen > 2 {
            let start = (width - tlen - 2) / 2;
            top.put_char(start, ' ', attr);
            top.move_str(start + 1, self.title.as_str(), attr);
            top.put_char(start + 1 + tlen, ' ', attr);
        }
        let ax = self.bounds.a.x as i32;
        let ay = self.bounds.a.y as i32;
        terminal.write_row(ax, ay, top.data.as_slice());
        let ghost t1 = *terminal;
        let mut y: i32 = 1;
        while y < h - 1
            invariant
                1 <= y <= h - 1 || y == 1,
                h == self.bounds.spec_height(),
                w == self.bounds.spec_width(),
                ax == self.bounds.a.x,
                ay == self.bounds.a.y,
                t0.drawn_into(*terminal),
            decreases h - 1 - y,
        {
            let ghost tp = *terminal;
            put_cell(terminal, ax, ay + y, Cell { ch: '\u{2551}', attr });
            put_cell(terminal, ax + w - 1, ay + y, Cell { ch: '\u{2551}', attr });
            proof {
                Terminal::lemma_drawn_into_trans(t0, tp, *terminal);
            }
            y = y + 1;
        }
        let mut bottom = DrawBuffer::new(width);
        bottom.move_char(0, '\u{2550}', attr, width);
        bottom.put_char(0, '\u{255a}', attr);
        bottom.put_char(width - 1, '\u{255d}', attr);
        let ghost tp = *terminal;
        terminal.write_row(ax, ay + h - 1, bottom.data.as_slice());
        proof {
            Terminal::lemma_drawn_into_trans(t0, tp, *terminal);
        }
    }
}

impl Widget for Window {
    open spec fn inv(&self) -> bool {
        self.wf()
    }

    open spec fn spec_bounds(&self) -> Rect {
        self.spec_window_bounds()
    }

    open spec fn spec_can_focus(&self) -> bool {
        true
    }

    open spec fn spec_focused(&self) -> bool {
        self.spec_window_focused()
    }

    open spec fn synced(&self, cmds: CommandSet) -> bool {
        self.spec_interior().synced(cmds)
    }

    /// The frame's rule, then the interior's handling.
    open spec fn handled(&self, post: Self, ev0: Event, ev1: Event, cmds: CommandSet) -> bool {
        &&& post.spec_window_bounds() == self.spec_window_bounds()
        &&& post.spec_state() == self.spec_state()
        &&& post.spec_window_focused() == self.spec_window_focused()
        &&& self.spec_interior().handled(post.spec_interior(), frame_result(self.spec_window_bounds(), ev0), ev1, cmds)
    }

    /// The frame, then the interior with its children, then the shadow.
    open spec fn drawn(&self, pre: Terminal, post: Terminal) -> bool {
        exists|t1: Terminal, t2: Terminal|
            pre.drawn_into(t1) && #[trigger] self.spec_interior().drawn(t1, t2) && t2.drawn_into(post)
    }

    open spec fn spec_flags(&self) -> StateFlags {
        self.spec_state()
    }

    open spec fn spec_is_default(&self) -> bool {
        false
    }

    open spec fn spec_command(&self) -> Option<CommandId> {
        None
    }

    open spec fn moved_to(&self, post: Self, bounds: Rect) -> bool {
        &&& post.spec_window_bounds() == bounds
        &&& post.spec_state() == self.spec_state()
        &&& post.spec_title() == self.spec_title()
        &&& post.spec_window_focused() == self.spec_window_focused()
        &&& self.spec_interior().moved_to(post.spec_interior(), interior_of(bounds))
    }

    open spec fn spec_text(&self) -> Option<Seq<char>> {
        None
    }

    fn bounds(&self) -> (r: Rect) {
        self.bounds
    }

    /// Moves the frame and the interior with its children.
    fn set_bounds(&mut self, bounds: Rect) {
        self.bounds = bounds;
        self.interior.set_bounds(inset(bounds));
    }

    fn can_focus(&self) -> (r: bool) {
        true
    }

    fn is_focused(&self) -> (r: bool) {
        self.focused
    }

    /// Focus passes to the first focusable child; losing focus clears it everywhere.
    fn set_focus(&mut self, focused: bool) {
        self.focused = focused;
        if focused {
            self.interior.set_initial_focus();
        } else {
            self.interior.clear_all_focus();
        }
    }

    fn draw(&self, terminal: &mut Terminal) {
        let ghost t0 = *terminal;
        self.draw_frame(terminal);
        let ghost t1 = *terminal;
        self.interior.draw(terminal);
        let ghost t2 = *terminal;
        proof {
            Terminal::lemma_drawn_into_trans(t0, t1, *terminal);
            t2.lemma_drawn_into_refl();
        }
        if self.state & SF_SHADOW != 0 {
            draw_shadow(terminal, self.bounds);
            proof {
                Terminal::lemma_drawn_into_trans(t0, t2, *terminal);
            }
        }
        assert(t0.drawn_into(t1) && self.interior.drawn(t1, t2) && t2.drawn_into(*terminal));
    }

    fn update_cursor(&self, terminal: &mut Terminal) {
        self.interior.update_cursor(terminal);
    }

    /// A left press on the close box becomes the close command; then the
    /// interior handles the event.
    fn handle_event(&mut self, event: &mut Event, ctx: &mut Context) {
        self.frame_event(event);
        assert(is_command_set_changed(*old(event)) ==> *event == *old(event));
        self.interior.handle_event(event, ctx);
    }

    fn is_default_button(&self) -> (r: bool) {
        false
    }

    fn button_command(&self) -> (r: Option<CommandId>) {
        None
    }

    fn state(&self) -> (r: StateFlags) {
        self.state
    }

    fn set_state(&mut self, state: StateFlags) {
        self.state = state;
    }
}

/// A window that runs modally: double Escape cancels, Enter presses the default
/// button, and the first command it produces ends it.
pub struct Dialog {
    window: Window,
    result: CommandId,
}

/// The outcome of one event for a running dialog: the command that ends it, if any.
pub open spec fn dialog_outcome(e: Event) -> Option<CommandId> {
    if e.what == EventType::Command {
        Some(if e.command == CM_CLOSE { CM_CANCEL } else { e.command })
    } else {
        None
    }
}

impl Dialog {
    pub closed spec fn spec_window(&self) -> Window {
        self.window
    }

    pub closed spec fn spec_result(&self) -> CommandId {
        self.result
    }

    pub open spec fn wf(&self) -> bool {
        self.spec_window().wf()
    }

    pub open spec fn kids(&self) -> Seq<Control> {
        self.spec_window().spec_interior().kids()
    }

    pub fn new(bounds: Rect, title: &str) -> (r: Dialog)
        ensures
            r.wf(),
            r.spec_window().spec_window_bounds() == bounds,
            r.spec_window().spec_title() == title@,
            r.kids().len() == 0,
            r.spec_result() == CM_CANCEL,
    {
        Dialog { window: Window::new(bounds, title), result: CM_CANCEL }
    }

    pub fn add(&mut self, view: Control)
        requires
            old(self).wf(),
            view.inv(),
        ensures
            final(self).wf(),
            final(self).kids().len() == old(self).kids().len() + 1,
            forall|i: int| 0 <= i < old(self).kids().len() ==> #[trigger] final(self).kids()[i] == old(self).kids()[i],
            final(self).kids().last().spec_can_focus() == view.spec_can_focus(),
            final(self).kids().last().spec_command() == view.spec_command(),
            final(self).kids().last().spec_is_default() == view.spec_is_default(),
            final(self).kids().last().spec_text() == view.spec_text(),
            final(self).spec_window().spec_window_bounds() == old(self).spec_window().spec_window_bounds(),
            final(self).spec_window().spec_title() == old(self).spec_window().spec_title(),
    {
        self.window.add(view);
    }

    pub fn set_initial_focus(&mut self)
        requires
            old(self).wf(),
        ensures
            final(self).wf(),
            final(self).kids().len() == old(self).kids().len(),
            forall|i: int| 0 <= i < old(self).kids().len() ==> same_but_focus(old(self).kids()[i], #[trigger] final(self).kids()[i]),
            final(self).spec_window().spec_title() == old(self).spec_window().spec_title(),
    {
        self.window.set_initial_focus();
    }

    pub fn set_focus_to_child(&mut self, index: usize)
        requires
            old(self).wf(),
        ensures
            final(self).wf(),
    {
        self.window.set_focus_to_child(index);
    }

    pub fn child_count(&self) -> (r: usize)
        ensures
            r == self.kids().len(),
    {
        self.window.child_count()
    }

    pub fn child_at(&self, index: usize) -> (r: &Control)
        requires
            index < self.kids().len(),
        ensures
            *r == self.kids()[index as int],
    {
        self.window.child_at(index)
    }

    pub fn child_at_mut(&mut self, index: usize) -> (r: &mut Control)
        requires
            index < old(self).kids().len(),
        ensures
            *r == old(self).kids()[index as int],
            final(self).kids() == old(self).kids().update(index as int, *final(r)),
    {
        self.window.child_at_mut(index)
    }

    /// The command of the default button, if there is one and it is enabled.
    pub fn find_default_button_command(&self) -> (r: Option<CommandId>)
        ensures
            r == default_command(self.kids()),
    {
        let n = self.window.child_count();
        let mut i: usize = 0;
        assert(self.kids().skip(0) =~= self.kids());
        while i < n
            invariant
                n == self.kids().len(),
                i <= n,
                default_command(self.kids()) == default_command(self.kids().skip(i as int)),
            decreases n - i,
        {
            let child = self.window.child_at(i);
            let ghost rest = self.kids().skip(i as int);
            assert(rest[0] == *child);
            assert(rest.drop_first() =~= self.kids().skip(i + 1));
            match child {
                Control::Button(b) => {
                    if b.is_default {
                        if !b.disabled {
                            return Some(b.command);
                        } else {
                            return None;
                        }
                    }
                },
                _ => {},
            }
            i = i + 1;
        }
        assert(self.kids().skip(n as int).len() == 0);
        None
    }

    /// The dialog's own rules for an event that its window left unclaimed: a
    /// double Escape becomes cancel; Enter becomes the default button's command
    /// when that button exists and is enabled, and is swallowed otherwise.
    pub fn apply_dialog_keys(&self, event: &mut Event)
        ensures
            old(event).what == EventType::Keyboard && old(event).key_code == KB_ESC_ESC ==> *final(event) == command_event(CM_CANCEL),
            old(event).what == EventType::Keyboard && old(event).key_code == KB_ENTER ==> *final(event) == match default_command(self.kids()) {
                Some(c) => command_event(c),
                None => nothing_event(),
            },
            !(old(event).what == EventType::Keyboard && (old(event).key_code == KB_ESC_ESC || old(event).key_code == KB_ENTER))
                ==> *final(event) == *old(event),
            *final(event) == dialog_keys(self.kids(), *old(event)),
    {
        if event.what == EventType::Keyboard {
            if event.key_code == KB_ESC_ESC {
                *event = Event::command(CM_CANCEL);
            } else if event.key_code == KB_ENTER {
                match self.find_default_button_command() {
                    Some(cmd) => {
                        *event = Event::command(cmd);
                    },
                    None => {
                        event.clear();
                    },
                }
            }
        }
    }

    /// Marks the dialog modal and its result cancel; returns the state to restore.
    pub fn begin_execute(&mut self) -> (saved: StateFlags)
        requires
            old(self).wf(),
        ensures
            final(self).wf(),
            saved == old(self).spec_window().spec_state(),
            final(self).spec_window().spec_state() == saved | SF_MODAL,
            final(self).kids() == old(self).kids(),
            final(self).spec_result() == CM_CANCEL,
    {
        self.result = CM_CANCEL;
        let saved = self.window.state;
        self.window.state = saved | SF_MODAL;
        saved
    }

    /// Handles one event of the modal loop; returns the command that ends the
    /// dialog, if the event produced one. Double Escape always cancels, and the
    /// close command counts as cancel.
    pub fn execute_event(&mut self, event: &mut Event, ctx: &mut Context) -> (r: Option<CommandId>)
        requires
            old(self).wf(),
        ensures
            final(self).wf(),
            final(ctx).commands == old(ctx).commands,
            old(event).what == EventType::Keyboard && old(event).key_code == KB_ESC_ESC ==> r == Some(CM_CANCEL),
            !(old(event).what == EventType::Keyboard && old(event).key_code == KB_ESC_ESC) ==> r == dialog_outcome(*final(event)),
            r.is_some() ==> final(self).spec_result() == r.unwrap(),
            final(self).spec_window().spec_state() == old(self).spec_window().spec_state(),
            final(self).kids().len() == old(self).kids().len() || !(old(event).what == EventType::Keyboard && old(event).key_code == KB_ESC_ESC),
            old(event).what == EventType::Keyboard && old(event).key_code == KB_ESC_ESC ==> final(self).spec_window() == old(self).spec_window(),
            !(old(event).what == EventType::Keyboard && old(event).key_code == KB_ESC_ESC) ==> exists|e: Event|
                #[trigger] old(self).spec_window().handled(final(self).spec_window(), *old(event), e, old(ctx).commands)
                && *final(event) == dialog_keys(final(self).kids(), e),
    {
        if event.what == EventType::Keyboard && event.key_code == KB_ESC_ESC {
            self.result = CM_CANCEL;
            return Some(CM_CANCEL);
        }
        self.handle_event(event, ctx);
        if event.what == EventType::Command {
            let r = if event.command == CM_CLOSE { CM_CANCEL } else { event.command };
            self.result = r;
            Some(r)
        } else {
            None
        }
    }

    /// Restores the state saved when the dialog began; returns its result.
    pub fn end_execute(&mut self, saved: StateFlags) -> (r: CommandId)
        requires
            old(self).wf(),
        ensures
            final(self).wf(),
            final(self).spec_window().spec_state() == saved,
            final(self).kids() == old(self).kids(),
            r == old(self).spec_result(),
    {
        self.window.state = saved;
        self.result
    }

    pub fn result(&self) -> (r: CommandId)
        ensures
            r == self.spec_result(),
    {
        self.result
    }
}

impl Widget for Dialog {
    open spec fn inv(&self) -> bool {
        self.wf()
    }

    open spec fn spec_bounds(&self) -> Rect {
        self.spec_window().spec_window_bounds()
    }

    open spec fn spec_can_focus(&self) -> bool {
        true
    }

    open spec fn spec_focused(&self) -> bool {
        self.spec_window().spec_window_focused()
    }

    open spec fn synced(&self, cmds: CommandSet) -> bool {
        self.spec_window().synced(cmds)
    }

    /// The window's handling, then the dialog's own rules on what it left.
    open spec fn handled(&self, post: Self, ev0: Event, ev1: Event, cmds: CommandSet) -> bool {
        &&& post.spec_result() == self.spec_result()
        &&& exists|e: Event| #[trigger] self.spec_window().handled(post.spec_window(), ev0, e, cmds) && ev1 == dialog_keys(post.kids(), e)
    }

    open spec fn drawn(&self, pre: Terminal, post: Terminal) -> bool {
        self.spec_window().drawn(pre, post)
    }

    open spec fn spec_flags(&self) -> StateFlags {
        self.spec_window().spec_state()
    }

    open spec fn spec_is_default(&self) -> bool {
        false
    }

    open spec fn spec_command(&self) -> Option<CommandId> {
        None
    }

    open spec fn moved_to(&self, post: Self, bounds: Rect) -> bool {
        &&& post.spec_result() == self.spec_result()
        &&& self.spec_window().moved_to(post.spec_window(), bounds)
    }

    open spec fn spec_text(&self) -> Option<Seq<char>> {
        None
    }

    fn bounds(&self) -> (r: Rect) {
        self.window.bounds()
    }

    fn set_bounds(&mut self, bounds: Rect) {
        self.window.set_bounds(bounds);
    }

    fn can_focus(&self) -> (r: bool) {
        true
    }

    fn is_focused(&self) -> (r: bool) {
        self.window.is_focused()
    }

    fn set_focus(&mut self, focused: bool) {
        self.window.set_focus(focused);
    }

    fn draw(&self, terminal: &mut Terminal) {
        self.window.draw(terminal);
    }

    fn update_cursor(&self, terminal: &mut Terminal) {
        self.window.update_cursor(terminal);
    }

    /// The window handles the event first; what is left of a double Escape
    /// becomes cancel, and what is left of Enter presses the default button
    /// when it is enabled and is otherwise swallowed.
    fn handle_event(&mut self, event: &mut Event, ctx: &mut Context) {
        self.window.handle_event(event, ctx);
        let ghost e = *event;
        self.apply_dialog_keys(event);
        assert(old(self).spec_window().handled(self.spec_window(), *old(event), e, old(ctx).commands));
    }

    fn is_default_button(&self) -> (r: bool) {
        false
    }

    fn button_command(&self) -> (r: Option<CommandId>) {
        None
    }

    fn state(&self) -> (r: StateFlags) {
        self.window.state()
    }

    fn set_state(&mut self, state: StateFlags) {
        self.window.set_state(state);
    }
}

} // verus!
