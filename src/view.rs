//! The contract that every view meets, the state flags, and the context that
//! event handling reads and updates.
use vstd::prelude::*;
use crate::command::{CommandId, CommandSet, CM_COMMAND_SET_CHANGED};
use crate::event::{Event, EventType};
use crate::geometry::Rect;
use crate::clipboard::Clipboard;
use crate::terminal::Terminal;

verus! {

/// A bitset of view states.
pub type StateFlags = u16;

pub const SF_SHADOW: StateFlags = 0x0002;
pub const SF_FOCUSED: StateFlags = 0x0040;
pub const SF_DISABLED: StateFlags = 0x0100;
pub const SF_MODAL: StateFlags = 0x0200;

/// Process-wide state that views read and update while handling events:
/// the command enablement set and the clipboard.
pub struct Context {
    pub commands: CommandSet,
    pub clipboard: Clipboard,
}

impl Context {
    pub fn new() -> (r: Context)
        ensures
            forall|id: CommandId| #[trigger] r.commands.spec_enabled(id),
            !r.commands.spec_changed(),
            r.clipboard.text@.len() == 0,
    {
        Context { commands: CommandSet::new(), clipboard: Clipboard::new() }
    }
}

/// Whether an event is the broadcast that the command set changed.
pub open spec fn is_command_set_changed(e: Event) -> bool {
    e.what == EventType::Broadcast && e.command == CM_COMMAND_SET_CHANGED
}

/// What every view offers: its bounds, drawing, event handling and focus.
pub trait Widget: Sized {
    /// The view's own well-formedness.
    spec fn inv(&self) -> bool;

    spec fn spec_bounds(&self) -> Rect;

    spec fn spec_can_focus(&self) -> bool;

    spec fn spec_focused(&self) -> bool;

    /// Whether the view, and every view inside it, shows the enabled state
    /// that `cmds` gives its commands.
    spec fn synced(&self, cmds: CommandSet) -> bool;

    /// What handling event `ev0` does: the view goes to `post` and the event
    /// becomes `ev1`, where `cmds` is the command set.
    spec fn handled(&self, post: Self, ev0: Event, ev1: Event, cmds: CommandSet) -> bool;

    /// What drawing does: the terminal goes from `pre` to `post`.
    spec fn drawn(&self, pre: Terminal, post: Terminal) -> bool;

    spec fn spec_flags(&self) -> StateFlags;

    spec fn spec_is_default(&self) -> bool;

    spec fn spec_command(&self) -> Option<CommandId>;

    /// What moving the view to `bounds` does: the view goes to `post`.
    spec fn moved_to(&self, post: Self, bounds: Rect) -> bool;

    /// The text that the view holds for editing, if it is an input field.
    spec fn spec_text(&self) -> Option<Seq<char>>;

    fn bounds(&self) -> (r: Rect)
        ensures
            r == self.spec_bounds(),
    ;

    /// Moves the view, and every view inside it, to `bounds`.
    fn set_bounds(&mut self, bounds: Rect)
        requires
            old(self).inv(),
        ensures
            final(self).inv(),
            final(self).spec_bounds() == bounds,
            old(self).moved_to(*final(self), bounds),
            final(self).spec_can_focus() == old(self).spec_can_focus(),
            final(self).spec_focused() == old(self).spec_focused(),
            final(self).spec_command() == old(self).spec_command(),
            final(self).spec_is_default() == old(self).spec_is_default(),
            final(self).spec_text() == old(self).spec_text(),
    ;

    fn can_focus(&self) -> (r: bool)
        ensures
            r == self.spec_can_focus(),
    ;

    fn is_focused(&self) -> (r: bool)
        ensures
            r == self.spec_focused(),
    ;

    fn set_focus(&mut self, focused: bool)
        requires
            old(self).inv(),
        ensures
            final(self).inv(),
            final(self).spec_focused() == focused,
            final(self).spec_bounds() == old(self).spec_bounds(),
            final(self).spec_can_focus() == old(self).spec_can_focus(),
            final(self).spec_command() == old(self).spec_command(),
            final(self).spec_is_default() == old(self).spec_is_default(),
            final(self).spec_text() == old(self).spec_text(),
    ;

    /// Paints the view; writes land only where the terminal's clip region admits them.
    fn draw(&self, terminal: &mut Terminal)
        requires
            self.inv(),
            old(terminal).wf(),
        ensures
            old(terminal).drawn_into(*final(terminal)),
            self.drawn(*old(terminal), *final(terminal)),
    ;

    /// Places the hardware cursor where the view wants it.
    fn update_cursor(&self, terminal: &mut Terminal)
        requires
            self.inv(),
            old(terminal).wf(),
        ensures
            old(terminal).cursor_moved_into(*final(terminal)),
    ;

    /// Handles an event: may turn it into a command or clear it. The
    /// command-set broadcast leaves the view in step with the command set.
    fn handle_event(&mut self, event: &mut Event, ctx: &mut Context)
        requires
            old(self).inv(),
        ensures
            final(self).inv(),
            final(self).spec_bounds() == old(self).spec_bounds(),
            final(self).spec_focused() == old(self).spec_focused(),
            final(ctx).commands == old(ctx).commands,
            is_command_set_changed(*old(event)) ==> final(self).synced(old(ctx).commands),
            old(self).handled(*final(self), *old(event), *final(event), old(ctx).commands),
    ;

    /// Whether this view is a default button.
    fn is_default_button(&self) -> (r: bool)
        ensures
            r == self.spec_is_default(),
    ;

    /// The command that this view stands for, if any.
    fn button_command(&self) -> (r: Option<CommandId>)
        ensures
            r == self.spec_command(),
    ;

    fn state(&self) -> (r: StateFlags)
        ensures
            r == self.spec_flags(),
    ;

    fn set_state(&mut self, state: StateFlags)
        requires
            old(self).inv(),
        ensures
            final(self).inv(),
            final(self).spec_bounds() == old(self).spec_bounds(),
            final(self).spec_focused() == old(self).spec_focused(),
            final(self).spec_can_focus() == old(self).spec_can_focus(),
    ;
}

} // verus!
