//! The controls that a window holds, as one type that meets the view contract.
use vstd::prelude::*;
use crate::button::{Button, button_step};
use crate::checkbox::{CheckBox, RadioButton, checkbox_step, radio_step};
use crate::command::{CommandId, CommandSet};
use crate::event::Event;
use crate::geometry::Rect;
use crate::input_line::{InputLine, input_step};
use crate::label::{Background, Label};
use crate::listbox::{ListBox, listbox_step};
use crate::terminal::Terminal;
use crate::view::{Context, StateFlags, Widget, SF_DISABLED, SF_FOCUSED, is_command_set_changed};

verus! {

pub enum Control {
    Button(Button),
    CheckBox(CheckBox),
    RadioButton(RadioButton),
    Label(Label),
    Background(Background),
    ListBox(ListBox),
    InputLine(InputLine),
}

impl Widget for Control {
    open spec fn inv(&self) -> bool {
        match self {
            Control::ListBox(l) => l.wf(),
            Control::InputLine(i) => i.wf(),
            _ => true,
        }
    }

    open spec fn spec_bounds(&self) -> Rect {
        match self {
            Control::Button(b) => b.bounds,
            Control::CheckBox(c) => c.bounds,
            Control::RadioButton(r) => r.bounds,
            Control::Label(l) => l.bounds,
            Control::Background(g) => g.bounds,
            Control::ListBox(l) => l.bounds,
            Control::InputLine(i) => i.bounds,
        }
    }

    open spec fn spec_can_focus(&self) -> bool {
        match self {
            Control::Button(b) => !b.disabled,
            Control::Label(_) => false,
            Control::Background(_) => false,
            _ => true,
        }
    }

    open spec fn spec_focused(&self) -> bool {
        match self {
            Control::Button(b) => b.focused,
            Control::CheckBox(c) => c.focused,
            Control::RadioButton(r) => r.focused,
            Control::Label(l) => l.focused,
            Control::Background(g) => g.focused,
            Control::ListBox(l) => l.focused,
            Control::InputLine(i) => i.focused,
        }
    }

    /// A button is disabled exactly when its command is; other controls have no
    /// enabled state.
    open spec fn synced(&self, cmds: CommandSet) -> bool {
        match self {
            Control::Button(b) => b.disabled == !cmds.spec_enabled(b.command),
            _ => true,
        }
    }

    open spec fn handled(&self, post: Self, ev0: Event, ev1: Event, cmds: CommandSet) -> bool {
        match (*self, post) {
            (Control::Button(a), Control::Button(b)) => button_step(a, b, ev0, ev1, cmds),
            (Control::CheckBox(a), Control::CheckBox(b)) => checkbox_step(a, b, ev0, ev1),
            (Control::RadioButton(a), Control::RadioButton(b)) => radio_step(a, b, ev0, ev1),
            (Control::Label(a), Control::Label(b)) => b == a && ev1 == ev0,
            (Control::Background(a), Control::Background(b)) => b == a && ev1 == ev0,
            (Control::ListBox(a), Control::ListBox(b)) => listbox_step(a, b, ev0, ev1),
            (Control::InputLine(a), Control::InputLine(b)) => input_step(a, b, ev0, ev1),
            _ => false,
        }
    }

    /// A control paints inside its bounds and the clip region; nothing more is stated.
    open spec fn drawn(&self, pre: Terminal, post: Terminal) -> bool {
        pre.drawn_into(post)
    }

    open spec fn spec_flags(&self) -> StateFlags {
        let f: StateFlags = if self.spec_focused() { SF_FOCUSED } else { 0 };
        let d: StateFlags = if self.spec_can_focus() { 0 } else { SF_DISABLED };
        match self {
            Control::CheckBox(c) => c.state | f,
            _ => f | d,
        }
    }

    open spec fn spec_is_default(&self) -> bool {
        match self {
            Control::Button(b) => b.is_default,
            _ => false,
        }
    }

    open spec fn spec_command(&self) -> Option<CommandId> {
        match self {
            Control::Button(b) => Some(b.command),
            _ => None,
        }
    }

    /// A control moves by taking the new bounds; nothing else changes.
    open spec fn moved_to(&self, post: Self, bounds: Rect) -> bool {
        match (*self, post) {
            (Control::Button(a), Control::Button(b)) => b == (Button { bounds, ..a }),
            (Control::CheckBox(a), Control::CheckBox(b)) => b == (CheckBox { bounds, ..a }),
            (Control::RadioButton(a), Control::RadioButton(b)) => b == (RadioButton { bounds, ..a }),
            (Control::Label(a), Control::Label(b)) => b == (Label { bounds, ..a }),
            (Control::Background(a), Control::Background(b)) => b == (Background { bounds, ..a }),
            (Control::ListBox(a), Control::ListBox(b)) => b == (ListBox { bounds, ..a }),
            (Control::InputLine(a), Control::InputLine(b)) => b == (InputLine { bounds, ..a }),
            _ => false,
        }
    }

    open spec fn spec_text(&self) -> Option<Seq<char>> {
        match self {
            Control::InputLine(i) => Some(i.data@),
            _ => None,
        }
    }

    fn bounds(&self) -> (r: Rect) {
        match self {
            Control::Button(b) => b.bounds,
            Control::CheckBox(c) => c.bounds,
            Control::RadioButton(r) => r.bounds,
            Control::Label(l) => l.bounds,
            Control::Background(g) => g.bounds,
            Control::ListBox(l) => l.bounds,
            Control::InputLine(i) => i.bounds,
        }
    }

    fn set_bounds(&mut self, bounds: Rect) {
        match self {
            Control::Button(b) => b.bounds = bounds,
            Control::CheckBox(c) => c.bounds = bounds,
            Control::RadioButton(r) => r.bounds = bounds,
            Control::Label(l) => l.bounds = bounds,
            Control::Background(g) => g.bounds = bounds,
            Control::ListBox(l) => l.bounds = bounds,
            Control::InputLine(i) => i.bounds = bounds,
        }
    }

    fn can_focus(&self) -> (r: bool) {
        match self {
            Control::Button(b) => !b.disabled,
            Control::Label(_) => false,
            Control::Background(_) => false,
            _ => true,
        }
    }

    fn is_focused(&self) -> (r: bool) {
        match self {
            Control::Button(b) => b.focused,
            Control::CheckBox(c) => c.focused,
            Control::RadioButton(r) => r.focused,
            Control::Label(l) => l.focused,
            Control::Background(g) => g.focused,
            Control::ListBox(l) => l.focused,
            Control::InputLine(i) => i.focused,
        }
    }

    fn set_focus(&mut self, focused: bool) {
        match self {
            Control::Button(b) => b.focused = focused,
            Control::CheckBox(c) => c.focused = focused,
            Control::RadioButton(r) => r.focused = focused,
            Control::Label(l) => l.focused = focused,
            Control::Background(g) => g.focused = focused,
            Control::ListBox(l) => l.focused = focused,
            Control::InputLine(i) => i.focused = focused,
        }
    }

    fn draw(&self, terminal: &mut Terminal) {
        match self {
            Control::Button(b) => b.draw(terminal),
            Control::CheckBox(c) => c.draw(terminal),
            Control::RadioButton(r) => r.draw(terminal),
            Control::Label(l) => l.draw(terminal),
            Control::Background(g) => g.draw(terminal),
            Control::ListBox(l) => l.draw(terminal),
            Control::InputLine(i) => i.draw(terminal),
        }
    }

    fn update_cursor(&self, terminal: &mut Terminal) {
        match self {
            Control::InputLine(i) => i.update_cursor(terminal),
            _ => {
                proof {
                    terminal.lemma_cursor_moved_refl();
                }
            },
        }
    }

    fn handle_event(&mut self, event: &mut Event, ctx: &mut Context) {
        let ghost c0 = ctx.commands;
        match self {
            Control::Button(b) => b.handle_event(event, ctx),
            Control::CheckBox(c) => c.handle_event(event),
            Control::RadioButton(r) => r.handle_event(event),
            Control::Label(_) => {},
            Control::Background(_) => {},
            Control::ListBox(l) => l.handle_event(event),
            Control::InputLine(i) => i.handle_event(event, ctx),
        }
        assert(ctx.commands == c0);
    }

    fn is_default_button(&self) -> (r: bool) {
        match self {
            Control::Button(b) => b.is_default,
            _ => false,
        }
    }

    fn button_command(&self) -> (r: Option<CommandId>) {
        match self {
            Control::Button(b) => Some(b.command),
            _ => None,
        }
    }

    fn state(&self) -> (r: StateFlags) {
        let f: StateFlags = if self.is_focused() { SF_FOCUSED } else { 0 };
        let d: StateFlags = if self.can_focus() { 0 } else { SF_DISABLED };
        match self {
            Control::CheckBox(c) => c.state | f,
            _ => f | d,
        }
    }

    fn set_state(&mut self, state: StateFlags) {
        match self {
            Control::CheckBox(c) => c.state = state,
            _ => {},
        }
    }
}

/// The default button's command, from the first child marked default: none when
/// there is no such child or it cannot take focus (it is disabled).
pub open spec fn default_command(kids: Seq<Control>) -> Option<CommandId>
    decreases kids.len(),
{
    if kids.len() == 0 {
        None
    } else {
        match kids[0] {
            Control::Button(b) => if b.is_default {
                if !b.disabled { Some(b.command) } else { None }
            } else {
                default_command(kids.drop_first())
            },
            _ => default_command(kids.drop_first()),
        }
    }
}

} // verus!
