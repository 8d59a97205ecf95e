//! The layouts of the standard message box and input box dialogs.
use vstd::prelude::*;
use crate::button::Button;
use crate::command::{CommandId, CM_CANCEL, CM_NO, CM_OK, CM_YES};
use crate::control::Control;
use crate::group::same_but_focus;
use crate::view::Widget;
use crate::geometry::{Rect, clamp_i16};
use crate::input_line::InputLine;
use crate::label::Label;
use crate::window::Dialog;

verus! {

pub const MF_WARNING: u16 = 0x0000;
pub const MF_ERROR: u16 = 0x0001;
pub const MF_INFORMATION: u16 = 0x0002;
pub const MF_CONFIRMATION: u16 = 0x0003;
pub const MF_YES_BUTTON: u16 = 0x0100;
pub const MF_NO_BUTTON: u16 = 0x0200;
pub const MF_OK_BUTTON: u16 = 0x0400;
pub const MF_CANCEL_BUTTON: u16 = 0x0800;
pub const MF_YES_NO_CANCEL: u16 = 0x0b00;
pub const MF_OK_CANCEL: u16 = 0x0c00;

/// The title that the low two bits of the options choose.
pub open spec fn title_of(options: u16) -> Seq<char> {
    let kind = options & 0x03;
    if kind == MF_WARNING {
        "Warning"@
    } else if kind == MF_ERROR {
        "Error"@
    } else if kind == MF_INFORMATION {
        "Information"@
    } else {
        "Confirm"@
    }
}

/// The commands of the buttons that the options ask for, in order: yes, no, OK, cancel.
pub open spec fn button_commands(options: u16) -> Seq<CommandId> {
    (if options & MF_YES_BUTTON != 0 { seq![CM_YES] } else { Seq::empty() })
        + (if options & MF_NO_BUTTON != 0 { seq![CM_NO] } else { Seq::empty() })
        + (if options & MF_OK_BUTTON != 0 { seq![CM_OK] } else { Seq::empty() })
        + (if options & MF_CANCEL_BUTTON != 0 { seq![CM_CANCEL] } else { Seq::empty() })
}

/// Whether the children after the first are buttons bound to `cs`, with default marks `ds`.
pub open spec fn buttons_match(kids: Seq<Control>, cs: Seq<CommandId>, ds: Seq<bool>) -> bool {
    &&& kids.len() == 1 + cs.len()
    &&& ds.len() == cs.len()
    &&& forall|i: int| 0 <= i < cs.len() ==> (#[trigger] kids[1 + i]).spec_command() == Some(cs[i])
        && kids[1 + i].spec_is_default() == ds[i]
}

/// The title that the low two bits of the options choose.
pub fn message_box_title(options: u16) -> (r: &'static str)
    ensures
        r@ == title_of(options),
{
    let kind = options & 0x03;
    if kind == MF_WARNING {
        "Warning"
    } else if kind == MF_ERROR {
        "Error"
    } else if kind == MF_INFORMATION {
        "Information"
    } else {
        "Confirm"
    }
}

/// The number of buttons that the options ask for.
pub open spec fn button_count(options: u16) -> nat {
    (if options & MF_YES_BUTTON != 0 { 1nat } else { 0nat }) + (if options & MF_NO_BUTTON != 0 { 1nat } else { 0nat })
        + (if options & MF_OK_BUTTON != 0 { 1nat } else { 0nat }) + (if options & MF_CANCEL_BUTTON != 0 { 1nat } else { 0nat })
}

/// The bounds of a message box centred on a screen: wide enough for the
/// longest line plus six, between 30 and 60 columns, and six rows taller than
/// the number of lines.
pub fn message_box_bounds(screen_w: u16, screen_h: u16, message: &str) -> (r: Rect)
    ensures
        screen_w < 32768 && screen_h < 32768 ==> 30 <= r.spec_width() <= 60 && 7 <= r.spec_height() <= 1006,
        screen_w < 32768 && screen_h < 32768 && screen_w >= r.spec_width() && screen_h >= r.spec_height()
            ==> r.a.x == (screen_w - r.spec_width()) / 2 && r.a.y == (screen_h - r.spec_height()) / 2,
{
    let n = message.unicode_len();
    let mut longest: usize = 0;
    let mut current: usize = 0;
    let mut lines: usize = 1;
    let mut i: usize = 0;
    while i < n
        invariant
            n == message@.len(),
            current <= i,
            1 <= lines <= 100000,
        decreases n - i,
    {
        if message.get_char(i) == '\n' {
            current = 0;
            if lines < 100000 {
                lines = lines + 1;
            }
        } else {
            current = current + 1;
            if current > longest {
                longest = current;
            }
        }
        i = i + 1;
    }
    let lw: usize = if n == 0 { 20 } else if longest > 1000 { 1000 } else { longest };
    let width: i32 = if lw + 6 > 60 { 60 } else if lw + 6 < 30 { 30 } else { (lw + 6) as i32 };
    let height: i32 = if lines > 1000 { 1006 } else { lines as i32 + 6 };
    let x = (screen_w as i32 - width) / 2;
    let y = (screen_h as i32 - height) / 2;
    Rect::new(clamp_i16(x), clamp_i16(y), clamp_i16(x + width), clamp_i16(y + height))
}

/// A message box: the title that the options choose, the message, and a row of
/// the buttons that the options ask for (yes, no, OK, cancel, in that order),
/// centred; the OK button, or a lone button, is the default.
pub fn message_box_dialog(bounds: Rect, message: &str, options: u16) -> (r: Dialog)
    ensures
        r.wf(),
        r.spec_window().spec_title() == title_of(options),
        r.kids().len() == 1 + button_commands(options).len(),
        r.kids()[0].spec_command().is_none(),
        forall|i: int| 0 <= i < button_commands(options).len() ==> (#[trigger] r.kids()[1 + i]).spec_command()
            == Some(button_commands(options)[i]) && r.kids()[1 + i].spec_is_default() == ((button_commands(options).len()
            == 1 || options & MF_OK_BUTTON != 0) && (i == 0 || button_commands(options)[i] == CM_OK)),
{
    let mut dialog = Dialog::new(bounds, message_box_title(options));
    let w = bounds.width();
    let h = bounds.height();
    let text_bounds = Rect::new(3, 2, clamp_i16(w - 2), clamp_i16(h - 3));
    dialog.add(Control::Label(Label::new(text_bounds, message)));
    let ghost mut cs: Seq<CommandId> = Seq::empty();
    let ghost mut ds: Seq<bool> = Seq::empty();
    let ghost k0 = dialog.kids()[0];
    let yes = options & MF_YES_BUTTON != 0;
    let no = options & MF_NO_BUTTON != 0;
    let ok = options & MF_OK_BUTTON != 0;
    let cancel = options & MF_CANCEL_BUTTON != 0;
    let count: usize = (if yes { 1 } else { 0 }) + (if no { 1 } else { 0 }) + (if ok { 1 } else { 0 }) + (if cancel { 1 } else { 0 });
    let total: i32 = (if yes { 7 } else { 0 }) + (if no { 6 } else { 0 }) + (if ok { 10 } else { 0 }) + (if cancel { 12 } else { 0 });
    let button_y = clamp_i16(h - 3);
    let mut x: i32 = (w - total) / 2;
    let default_all = count == 1 || ok;
    let mut first = true;
    if yes {
        x = add_button(&mut dialog, x, button_y, "~Y~es", CM_YES, default_all && first, Ghost(cs), Ghost(ds));
        proof {
            cs = cs.push(CM_YES);
            ds = ds.push(default_all && first);
        }
        first = false;
    }
    if no {
        x = add_button(&mut dialog, x, button_y, "~N~o", CM_NO, default_all && first, Ghost(cs), Ghost(ds));
        proof {
            cs = cs.push(CM_NO);
            ds = ds.push(default_all && first);
        }
        first = false;
    }
    if ok {
        x = add_button(&mut dialog, x, button_y, "  ~O~K  ", CM_OK, default_all, Ghost(cs), Ghost(ds));
        proof {
            cs = cs.push(CM_OK);
            ds = ds.push(default_all);
        }
        first = false;
    }
    if cancel {
        x = add_button(&mut dialog, x, button_y, " ~C~ancel ", CM_CANCEL, default_all && first, Ghost(cs), Ghost(ds));
        proof {
            cs = cs.push(CM_CANCEL);
            ds = ds.push(default_all && first);
        }
    }
    let ghost before = dialog.kids();
    dialog.set_initial_focus();
    proof {
        assert(cs =~= button_commands(options));
        assert forall|i: int| 0 <= i < cs.len() implies ds[i] == ((cs.len() == 1 || options & MF_OK_BUTTON != 0)
            && (i == 0 || cs[i] == CM_OK)) by {}
        assert(same_but_focus(before[0], dialog.kids()[0]));
        assert forall|i: int| 0 <= i < cs.len() implies (#[trigger] dialog.kids()[1 + i]).spec_command() == Some(cs[i])
            && dialog.kids()[1 + i].spec_is_default() == ds[i] by {
            assert(same_but_focus(before[1 + i], dialog.kids()[1 + i]));
        }
    }
    dialog
}

fn add_button(dialog: &mut Dialog, x: i32, y: i16, label: &str, cmd: CommandId, is_default: bool, cs: Ghost<Seq<CommandId>>, ds: Ghost<Seq<bool>>) -> (next: i32)
    requires
        old(dialog).wf(),
        -100000 <= x <= 100000,
        buttons_match(old(dialog).kids(), cs@, ds@),
    ensures
        final(dialog).wf(),
        final(dialog).kids().len() == old(dialog).kids().len() + 1,
        final(dialog).kids()[0] == old(dialog).kids()[0],
        final(dialog).spec_window().spec_title() == old(dialog).spec_window().spec_title(),
        buttons_match(final(dialog).kids(), cs@.push(cmd), ds@.push(is_default)),
        -100000 <= next <= 100000,
{
    let len = label.unicode_len();
    let lw: i32 = if len < 40 { len as i32 } else { 40 };
    let b = Rect::new(clamp_i16(x), y, clamp_i16(x + lw), clamp_i16(y as i32 + 2));
    dialog.add(Control::Button(Button::new(b, label, cmd, is_default)));
    proof {
        let k = dialog.kids();
        assert forall|i: int| 0 <= i < cs@.len() + 1 implies (#[trigger] k[1 + i]).spec_command() == Some(cs@.push(cmd)[i])
            && k[1 + i].spec_is_default() == ds@.push(is_default)[i] by {
            if i < cs@.len() {
                assert(k[1 + i] == old(dialog).kids()[1 + i]);
            }
        }
    }
    let next = x + lw + 2;
    if next > 100000 { 100000 } else { next }
}

/// The bounds of an input box centred on a screen.
pub fn input_box_bounds(screen_w: u16, screen_h: u16, label: &str, max_length: usize) -> (r: Rect)
    ensures
        screen_w < 32768 && screen_h < 32768 ==> 30 <= r.spec_width() <= 60 && r.spec_height() == 7,
        screen_w < 32768 && screen_h < 32768 && screen_w >= r.spec_width() && screen_h >= 7
            ==> r.a.x == (screen_w - r.spec_width()) / 2 && r.a.y == (screen_h - 7) / 2,
        screen_w < 32768 && screen_h < 32768 && label@.len() + max_length + 12 <= 60 && label@.len() + max_length + 12 >= 30
            ==> r.spec_width() == label@.len() + max_length + 12,
{
    let l = label.unicode_len();
    let want: usize = if l < 100 && max_length < 100 { l + max_length + 12 } else { 60 };
    let width: i32 = if want > 60 { 60 } else if want < 30 { 30 } else { want as i32 };
    let height: i32 = 7;
    let x = (screen_w as i32 - width) / 2;
    let y = (screen_h as i32 - height) / 2;
    Rect::new(clamp_i16(x), clamp_i16(y), clamp_i16(x + width), clamp_i16(y + height))
}

/// An input box: a label, an input line holding `initial` (child 1), and the
/// OK (default) and Cancel buttons.
pub fn input_box_dialog(bounds: Rect, title: &str, label: &str, initial: &str, max_length: usize) -> (r: Dialog)
    ensures
        r.wf(),
        r.spec_window().spec_title() == title@,
        r.kids().len() == 4,
        r.kids()[1].spec_text() == Some(initial@),
        r.kids()[2].spec_command() == Some(CM_OK) && r.kids()[2].spec_is_default(),
        r.kids()[3].spec_command() == Some(CM_CANCEL) && !r.kids()[3].spec_is_default(),
{
    let mut dialog = Dialog::new(bounds, title);
    let ll = label.unicode_len();
    let label_w: i32 = if ll < 1000 { ll as i32 } else { 1000 };
    dialog.add(Control::Label(Label::new(Rect::new(2, 2, clamp_i16(2 + label_w), 3), label)));
    let input_x = 2 + label_w + 1;
    let avail = bounds.width() - input_x - 3;
    let cap: i32 = if max_length < 1000 { max_length as i32 + 2 } else { 1002 };
    let input_w = if avail < cap { avail } else { cap };
    dialog.add(Control::InputLine(InputLine::new(
        Rect::new(clamp_i16(input_x), 2, clamp_i16(input_x + input_w), 3),
        max_length,
        initial,
    )));
    let button_y = clamp_i16(bounds.height() - 3);
    let ok_x = bounds.width() / 2 - 11;
    dialog.add(Control::Button(Button::new(
        Rect::new(clamp_i16(ok_x), button_y, clamp_i16(ok_x + 10), clamp_i16(button_y as i32 + 2)),
        "  ~O~K  ",
        CM_OK,
        true,
    )));
    let cancel_x = ok_x + 12;
    dialog.add(Control::Button(Button::new(
        Rect::new(clamp_i16(cancel_x), button_y, clamp_i16(cancel_x + 10), clamp_i16(button_y as i32 + 2)),
        " Cancel ",
        CM_CANCEL,
        false,
    )));
    let ghost before = dialog.kids();
    dialog.set_initial_focus();
    proof {
        assert(same_but_focus(before[1], dialog.kids()[1]));
        assert(same_but_focus(before[2], dialog.kids()[2]));
        assert(same_but_focus(before[3], dialog.kids()[3]));
    }
    dialog
}

} // verus!
