//! The application: the screen, the desktop, the optional menu bar and status
//! line, the input decoder and the shared context, and the steps of the
//! draw, flush, poll and dispatch cycle.
use vstd::prelude::*;
use crate::command::{CM_COMMAND_SET_CHANGED, CM_QUIT};
use crate::desktop::Desktop;
use crate::event::{
    Event, EventType, InputDecoder, KeyInput, MouseInput, KB_ALT_X, KB_CTRL_C, KB_ESC, KB_ESC_X, KB_F10,
    decode_step, keyboard_event, mouse_step,
    command_event, nothing_event,
};
use crate::geometry::{Point, Rect, clamp16, clamp_i16};
use crate::menu_bar::{MenuBar, menu_step};
use crate::status_line::{StatusLine, status_step};
use crate::terminal::{Run, Terminal};
use crate::view::{Context, Widget};

verus! {

/// Whether a key is one of the application's quit keys: Ctrl-C, F10, Alt-X, Esc X.
pub open spec fn is_quit_key(code: u16) -> bool {
    code == KB_CTRL_C || code == KB_F10 || code == KB_ALT_X || code == KB_ESC_X
}

/// The quit rules on the event that reached the application: the quit command
/// stops it and is consumed; a quit key stops it and becomes the quit command.
pub open spec fn quit_step(e: Event, ev1: Event, r0: bool, r1: bool) -> bool {
    if e.what == EventType::Command && e.command == CM_QUIT {
        !r1 && ev1 == nothing_event()
    } else if e.what == EventType::Keyboard && is_quit_key(e.key_code) {
        !r1 && ev1 == command_event(CM_QUIT)
    } else {
        r1 == r0 && ev1 == e
    }
}

/// One dispatch through the stages, with `e1`, `e2`, `e3` the event after the
/// menu bar, the desktop and the status line: each stage runs only on an event
/// that the stage before left uncleared, and the quit rules run last.
pub open spec fn dispatch_chain(pre: Application, post: Application, ev0: Event, e1: Event, e2: Event, e3: Event, ev1: Event) -> bool {
    &&& match pre.menu_bar {
        Some(m) => post.menu_bar.is_some() && menu_step(m, post.menu_bar.unwrap(), ev0, e1),
        None => post.menu_bar.is_none() && e1 == ev0,
    }
    &&& if e1.what == EventType::Nothing {
        ev1 == e1 && post.desktop == pre.desktop && post.status_line == pre.status_line && post.running == pre.running
    } else {
        &&& pre.desktop.windows().group_handled(post.desktop.windows(), e1, e2, pre.ctx.commands)
        &&& post.desktop.spec_desktop_bounds() == pre.desktop.spec_desktop_bounds()
        &&& if e2.what == EventType::Nothing {
            ev1 == e2 && post.status_line == pre.status_line && post.running == pre.running
        } else {
            &&& match pre.status_line {
                Some(sl) => post.status_line.is_some() && status_step(sl, post.status_line.unwrap(), e2, e3),
                None => post.status_line.is_none() && e3 == e2,
            }
            &&& if e3.what == EventType::Nothing {
                ev1 == e3 && post.running == pre.running
            } else {
                quit_step(e3, ev1, pre.running, post.running)
            }
        }
    }
}

/// Dispatching `ev0` takes the application from `pre` to `post` and leaves `ev1`.
pub open spec fn dispatched(pre: Application, post: Application, ev0: Event, ev1: Event) -> bool {
    &&& post.terminal == pre.terminal
    &&& post.decoder == pre.decoder
    &&& post.ctx.commands == pre.ctx.commands
    &&& exists|e1: Event, e2: Event, e3: Event| #[trigger] dispatch_chain(pre, post, ev0, e1, e2, e3, ev1)
}

/// Dispatching `ev0` takes the application from `pre` to `post`, whatever the event becomes.
pub open spec fn dispatched_some(pre: Application, post: Application, ev0: Event) -> bool {
    exists|ev1: Event| #[trigger] dispatched(pre, post, ev0, ev1)
}

/// `apps[i + 1]` is `apps[i]` after dispatching the key event of `codes[i]`.
pub open spec fn key_chain(apps: Seq<Application>, codes: Seq<u16>) -> bool {
    &&& apps.len() == codes.len() + 1
    &&& forall|i: int| 0 <= i < codes.len() ==> #[trigger] dispatched_some(apps[i], apps[i + 1], keyboard_event(codes[i]))
}

pub struct Application {
    pub terminal: Terminal,
    pub menu_bar: Option<MenuBar>,
    pub status_line: Option<StatusLine>,
    pub desktop: Desktop,
    pub running: bool,
    pub ctx: Context,
    pub decoder: InputDecoder,
}

impl Application {
    pub open spec fn wf(&self) -> bool {
        &&& self.terminal.wf()
        &&& self.desktop.wf()
        &&& match self.menu_bar {
            Some(m) => m.wf(),
            None => true,
        }
    }

    /// An application on a screen of `width` by `height`; the desktop takes
    /// every row but the first and the last.
    pub fn new(width: u16, height: u16) -> (r: Application)
        ensures
            r.wf(),
            !r.running,
            r.terminal.spec_width() == width,
            r.terminal.spec_height() == height,
            r.menu_bar.is_none(),
            r.status_line.is_none(),
            r.desktop.spec_desktop_bounds() == (Rect {
                a: Point { x: 0, y: 1 },
                b: Point { x: clamp16(width as int) as i16, y: clamp16(height - 1) as i16 },
            }),
            r.desktop.windows().kids().len() == 0,
            forall|id: u16| #[trigger] r.ctx.commands.spec_enabled(id),
            !r.ctx.commands.spec_changed(),
            !r.decoder.pending(),
            r.decoder.held_buttons() == 0,
    {
        let terminal = Terminal::new(width, height);
        let bounds = Rect::new(0, 1, clamp_i16(width as i32), clamp_i16(height as i32 - 1));
        Application {
            terminal,
            menu_bar: None,
            status_line: None,
            desktop: Desktop::new(bounds),
            running: false,
            ctx: Context::new(),
            decoder: InputDecoder::new(),
        }
    }

    pub fn set_menu_bar(&mut self, menu_bar: MenuBar)
        requires
            old(self).wf(),
            menu_bar.wf(),
        ensures
            final(self).wf(),
            final(self).menu_bar == Some(menu_bar),
    {
        self.menu_bar = Some(menu_bar);
    }

    pub fn set_status_line(&mut self, status_line: StatusLine)
        requires
            old(self).wf(),
        ensures
            final(self).wf(),
            final(self).status_line == Some(status_line),
    {
        self.status_line = Some(status_line);
    }

    /// Records the topmost window's extent, shadow included, as the active viewport.
    fn update_active_view_bounds(&mut self)
        requires
            old(self).wf(),
        ensures
            final(self).wf(),
            final(self).running == old(self).running,
    {
        let n = self.desktop.child_count();
        if n > 0 {
            let b = self.desktop.child_at(n - 1).shadow_bounds();
            self.terminal.set_active_view_bounds(b);
        } else {
            self.terminal.clear_active_view_bounds();
        }
    }

    /// Draws the desktop, then the menu bar (so that a drop-down lies over the
    /// desktop), then the status line, and lets the focused view place the cursor.
    pub fn draw(&mut self)
        requires
            old(self).wf(),
        ensures
            final(self).wf(),
            final(self).running == old(self).running,
            final(self).desktop == old(self).desktop,
            exists|td: Terminal, tm: Terminal|
                #[trigger] old(self).desktop.spec_drawn(old(self).terminal, td) && #[trigger] td.drawn_into(tm) && tm.cursor_moved_into(final(self).terminal),
    {
        let ghost t0 = self.terminal;
        self.desktop.draw(&mut self.terminal);
        let ghost td = self.terminal;
        proof {
            td.lemma_drawn_into_refl();
        }
        match &mut self.menu_bar {
            Some(m) => m.draw(&mut self.terminal),
            None => {},
        }
        let ghost t2 = self.terminal;
        proof {
            Terminal::lemma_drawn_into_trans(td, td, t2);
        }
        match &mut self.status_line {
            Some(s) => s.draw(&mut self.terminal),
            None => {},
        }
        let ghost tm = self.terminal;
        proof {
            Terminal::lemma_drawn_into_trans(td, t2, tm);
        }
        self.desktop.update_cursor(&mut self.terminal);
        assert(self.desktop.spec_drawn(t0, td) && td.drawn_into(tm) && tm.cursor_moved_into(self.terminal));
    }

    /// When the command set changed, sends the change broadcast through the
    /// desktop and clears the change mark. Returns whether it did.
    pub fn idle(&mut self) -> (sent: bool)
        requires
            old(self).wf(),
        ensures
            final(self).wf(),
            final(self).running == old(self).running,
            sent == old(self).ctx.commands.spec_changed(),
            !final(self).ctx.commands.spec_changed(),
            forall|id: u16| #[trigger] final(self).ctx.commands.spec_enabled(id) == old(self).ctx.commands.spec_enabled(id),
            sent ==> final(self).desktop.windows().synced(old(self).ctx.commands),
    {
        if self.ctx.commands.command_set_changed() {
            let mut e = Event::broadcast(CM_COMMAND_SET_CHANGED);
            self.desktop.handle_event(&mut e, &mut self.ctx);
            self.ctx.commands.clear_command_set_changed();
            true
        } else {
            self.ctx.commands.clear_command_set_changed();
            false
        }
    }

    /// Dispatches an event: the menu bar first, then the desktop, then the
    /// status line, stopping once one of them clears it; then the quit command
    /// and the quit keys stop the application.
    pub fn handle_event(&mut self, event: &mut Event)
        requires
            old(self).wf(),
        ensures
            final(self).wf(),
            final(self).running ==> old(self).running,
            final(self).ctx.commands == old(self).ctx.commands,
            dispatched(*old(self), *final(self), *old(event), *final(event)),
    {
        let ghost pre = *self;
        let ghost e0 = *event;
        match &mut self.menu_bar {
            Some(m) => {
                m.handle_event(event);
            },
            None => {},
        }
        let ghost e1 = *event;
        if event.what == EventType::Nothing {
            assert(dispatch_chain(pre, *self, e0, e1, e1, e1, *event));
            return;
        }
        let ghost c0 = self.ctx.commands;
        self.desktop.handle_event(event, &mut self.ctx);
        assert(self.ctx.commands == c0);
        let ghost e2 = *event;
        if event.what == EventType::Nothing {
            assert(dispatch_chain(pre, *self, e0, e1, e2, e2, *event));
            return;
        }
        match &mut self.status_line {
            Some(s) => {
                s.handle_event(event);
            },
            None => {},
        }
        let ghost e3 = *event;
        if event.what == EventType::Nothing {
            assert(dispatch_chain(pre, *self, e0, e1, e2, e3, *event));
            return;
        }
        let ghost mid = *self;
        self.apply_quit_rules(event);
        assert(quit_step(e3, *event, mid.running, self.running));
        assert(dispatch_chain(pre, *self, e0, e1, e2, e3, *event));
    }

    /// The application's own rules for an event that no view cleared: the quit
    /// command stops the application and is consumed; a quit key stops it and
    /// becomes the quit command.
    pub fn apply_quit_rules(&mut self, event: &mut Event)
        ensures
            old(event).what == EventType::Command && old(event).command == CM_QUIT ==> !final(self).running
                && *final(event) == nothing_event(),
            old(event).what == EventType::Keyboard && is_quit_key(old(event).key_code) ==> !final(self).running
                && *final(event) == command_event(CM_QUIT),
            !(old(event).what == EventType::Command && old(event).command == CM_QUIT) && !(old(event).what
                == EventType::Keyboard && is_quit_key(old(event).key_code)) ==> final(self).running == old(self).running
                && *final(event) == *old(event),
            final(self).terminal == old(self).terminal,
            final(self).desktop == old(self).desktop,
            final(self).menu_bar == old(self).menu_bar,
            final(self).status_line == old(self).status_line,
            final(self).ctx == old(self).ctx,
            final(self).decoder == old(self).decoder,
    {
        if event.what == EventType::Command && event.command == CM_QUIT {
            self.running = false;
            event.clear();
        } else if event.what == EventType::Keyboard && (event.key_code == KB_CTRL_C || event.key_code == KB_F10
            || event.key_code == KB_ALT_X || event.key_code == KB_ESC_X) {
            *event = Event::command(CM_QUIT);
            self.running = false;
        }
    }

    /// Feeds one key to the decoder and dispatches each key event it completes.
    pub fn dispatch_key(&mut self, key: KeyInput)
        requires
            old(self).wf(),
        ensures
            final(self).wf(),
            final(self).running ==> old(self).running,
            final(self).decoder.pending() == decode_step(old(self).decoder.pending(), key).0,
            final(self).decoder.held_buttons() == old(self).decoder.held_buttons(),
            exists|apps: Seq<Application>|
                #[trigger] key_chain(apps, decode_step(old(self).decoder.pending(), key).1) && apps[0] == (Application {
                    decoder: final(self).decoder,
                    ..*old(self)
                }) && apps.last() == *final(self),
    {
        let codes = self.decoder.process_key(key);
        let ghost d1 = self.decoder;
        let ghost mut apps: Seq<Application> = seq![*self];
        let mut i: usize = 0;
        while i < codes.len()
            invariant
                self.wf(),
                self.running ==> old(self).running,
                self.decoder == d1,
                apps[0].decoder == d1,
                d1.pending() == decode_step(old(self).decoder.pending(), key).0,
                d1.held_buttons() == old(self).decoder.held_buttons(),
                codes@ == decode_step(old(self).decoder.pending(), key).1,
                apps.len() == i + 1,
                i <= codes@.len(),
                apps.last() == *self,
                apps[0] == (Application { decoder: self.decoder, ..*old(self) }),
                forall|j: int| 0 <= j < i ==> #[trigger] dispatched_some(apps[j], apps[j + 1], keyboard_event(codes@[j])),
            decreases codes@.len() - i,
        {
            let mut e = Event::keyboard(codes[i]);
            let ghost before = *self;
            self.handle_event(&mut e);
            proof {
                assert(dispatched(before, *self, keyboard_event(codes@[i as int]), e));
                let old_apps = apps;
                apps = apps.push(*self);
                assert forall|j: int| 0 <= j < i + 1 implies #[trigger] dispatched_some(apps[j], apps[j + 1], keyboard_event(codes@[j])) by {
                    if j < i {
                        assert(apps[j] == old_apps[j] && apps[j + 1] == old_apps[j + 1]);
                    } else {
                        assert(apps[j] == before);
                    }
                }
            }
            i = i + 1;
        }
        assert(key_chain(apps, codes@));
    }

    /// No input came within the polling interval: a waiting escape is dispatched
    /// as a lone escape.
    pub fn dispatch_timeout(&mut self)
        requires
            old(self).wf(),
        ensures
            final(self).wf(),
            final(self).running ==> old(self).running,
            !final(self).decoder.pending(),
            final(self).decoder.held_buttons() == old(self).decoder.held_buttons(),
            old(self).decoder.pending() ==> dispatched_some(Application { decoder: final(self).decoder, ..*old(self) }, *final(self), keyboard_event(KB_ESC)),
            !old(self).decoder.pending() ==> *final(self) == (Application { decoder: final(self).decoder, ..*old(self) }),
    {
        match self.decoder.timeout() {
            Some(code) => {
                let mut e = Event::keyboard(code);
                let ghost before = *self;
                self.handle_event(&mut e);
                assert(dispatched(before, *self, keyboard_event(KB_ESC), e));
            },
            None => {},
        }
    }

    /// Translates a mouse primitive and dispatches the event.
    pub fn dispatch_mouse(&mut self, mouse: MouseInput)
        requires
            old(self).wf(),
        ensures
            final(self).wf(),
            final(self).running ==> old(self).running,
            final(self).decoder.held_buttons() == mouse_step(old(self).decoder.held_buttons(), mouse).1,
            final(self).decoder.pending() == old(self).decoder.pending(),
            match mouse_step(old(self).decoder.held_buttons(), mouse).0 {
                Some(ev) => dispatched_some(Application { decoder: final(self).decoder, ..*old(self) }, *final(self), ev),
                None => *final(self) == (Application { decoder: final(self).decoder, ..*old(self) }),
            },
    {
        match self.decoder.convert_mouse_event(mouse) {
            Some(e) => {
                let ghost e0 = e;
                let mut e = e;
                let ghost before = *self;
                self.handle_event(&mut e);
                assert(dispatched(before, *self, e0, e));
            },
            None => {},
        }
    }

    /// Marks the application running.
    pub fn start(&mut self)
        ensures
            final(self).running,
            final(self).wf() == old(self).wf(),
    {
        self.running = true;
    }

    /// One turn of the cycle before polling: the command-set broadcast if one
    /// is due, the active viewport, drawing, and the writes that would bring the
    /// terminal up to date; the caller commits the terminal once they are written.
    pub fn frame(&mut self) -> (runs: Vec<Run>)
        requires
            old(self).wf(),
        ensures
            final(self).wf(),
            final(self).running == old(self).running,
            final(self).terminal.runs_exact(runs@),
    {
        self.idle();
        self.update_active_view_bounds();
        self.draw();
        self.terminal.pending_runs()
    }
}

} // verus!
