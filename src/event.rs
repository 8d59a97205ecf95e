//! Events, key codes and the decoder that turns raw key and mouse input into events.
use vstd::prelude::*;
use crate::command::CommandId;
use crate::geometry::Point;

verus! {

/// A normalised key code.
pub type KeyCode = u16;

pub const KB_ESC: KeyCode = 0x011B;
pub const KB_ENTER: KeyCode = 0x1C0D;
pub const KB_BACKSPACE: KeyCode = 0x0E08;
pub const KB_TAB: KeyCode = 0x0F09;
pub const KB_SHIFT_TAB: KeyCode = 0x0F00;
pub const KB_UP: KeyCode = 0x4800;
pub const KB_DOWN: KeyCode = 0x5000;
pub const KB_LEFT: KeyCode = 0x4B00;
pub const KB_RIGHT: KeyCode = 0x4D00;
pub const KB_HOME: KeyCode = 0x4700;
pub const KB_END: KeyCode = 0x4F00;
pub const KB_PGUP: KeyCode = 0x4900;
pub const KB_PGDN: KeyCode = 0x5100;
pub const KB_INS: KeyCode = 0x5200;
pub const KB_DEL: KeyCode = 0x5300;
pub const KB_F1: KeyCode = 0x3B00;
pub const KB_F10: KeyCode = 0x4400;
pub const KB_F11: KeyCode = 0x8500;
pub const KB_F12: KeyCode = 0x8600;
pub const KB_ALT_F: KeyCode = 0x2100;
pub const KB_ALT_H: KeyCode = 0x2300;
pub const KB_ALT_X: KeyCode = 0x2D00;
pub const KB_CTRL_C: KeyCode = 0x0003;
/// Two escapes in a row: the universal cancel gesture.
pub const KB_ESC_ESC: KeyCode = 0xF01B;
pub const KB_ESC_E: KeyCode = 0xF065;
pub const KB_ESC_F: KeyCode = 0xF066;
pub const KB_ESC_H: KeyCode = 0xF068;
pub const KB_ESC_S: KeyCode = 0xF073;
pub const KB_ESC_V: KeyCode = 0xF076;
pub const KB_ESC_X: KeyCode = 0xF078;

pub const MB_LEFT_BUTTON: u8 = 0x01;
pub const MB_RIGHT_BUTTON: u8 = 0x02;
pub const MB_MIDDLE_BUTTON: u8 = 0x04;

#[derive(Debug, Clone, Copy, PartialEq, Eq, Structural)]
pub enum EventType {
    Nothing,
    Keyboard,
    MouseDown,
    MouseMove,
    MouseUp,
    Command,
    Broadcast,
}

#[derive(Debug, Clone, Copy, PartialEq, Eq, Structural)]
pub struct MouseEvent {
    pub pos: Point,
    pub buttons: u8,
    pub double_click: bool,
}

/// One event: its kind, and the payload of that kind (`command` holds the
/// identifier of a command or of a broadcast).
#[derive(Debug, Clone, Copy, PartialEq, Eq, Structural)]
pub struct Event {
    pub what: EventType,
    pub key_code: KeyCode,
    pub mouse: MouseEvent,
    pub command: CommandId,
}

pub open spec fn no_mouse() -> MouseEvent {
    MouseEvent { pos: Point { x: 0, y: 0 }, buttons: 0, double_click: false }
}

pub open spec fn command_event(id: CommandId) -> Event {
    Event { what: EventType::Command, key_code: 0, mouse: no_mouse(), command: id }
}

pub open spec fn keyboard_event(code: KeyCode) -> Event {
    Event { what: EventType::Keyboard, key_code: code, mouse: no_mouse(), command: 0 }
}

pub open spec fn nothing_event() -> Event {
    Event { what: EventType::Nothing, key_code: 0, mouse: no_mouse(), command: 0 }
}

pub open spec fn is_mouse(e: EventType) -> bool {
    e == EventType::MouseDown || e == EventType::MouseMove || e == EventType::MouseUp
}

impl Event {
    pub fn nothing() -> (r: Event)
        ensures
            r == nothing_event(),
    {
        Event {
            what: EventType::Nothing,
            key_code: 0,
            mouse: MouseEvent { pos: Point { x: 0, y: 0 }, buttons: 0, double_click: false },
            command: 0,
        }
    }

    pub fn keyboard(code: KeyCode) -> (r: Event)
        ensures
            r == keyboard_event(code),
    {
        Event {
            what: EventType::Keyboard,
            key_code: code,
            mouse: MouseEvent { pos: Point { x: 0, y: 0 }, buttons: 0, double_click: false },
            command: 0,
        }
    }

    pub fn command(id: CommandId) -> (r: Event)
        ensures
            r == command_event(id),
    {
        Event {
            what: EventType::Command,
            key_code: 0,
            mouse: MouseEvent { pos: Point { x: 0, y: 0 }, buttons: 0, double_click: false },
            command: id,
        }
    }

    pub fn broadcast(id: CommandId) -> (r: Event)
        ensures
            r.what == EventType::Broadcast,
            r.command == id,
    {
        Event {
            what: EventType::Broadcast,
            key_code: 0,
            mouse: MouseEvent { pos: Point { x: 0, y: 0 }, buttons: 0, double_click: false },
            command: id,
        }
    }

    pub fn mouse(what: EventType, pos: Point, buttons: u8, double_click: bool) -> (r: Event)
        ensures
            r.what == what,
            r.mouse == (MouseEvent { pos, buttons, double_click }),
            r.key_code == 0,
            r.command == 0,
    {
        Event { what, key_code: 0, mouse: MouseEvent { pos, buttons, double_click }, command: 0 }
    }

    /// Marks the event handled, which stops its propagation.
    pub fn clear(&mut self)
        ensures
            *final(self) == nothing_event(),
    {
        *self = Event::nothing();
    }
}

/// A key as the platform layer reports it.
#[derive(Debug, Clone, Copy, PartialEq, Eq, Structural)]
pub enum KeyInput {
    Char(char),
    Ctrl(char),
    Alt(char),
    Esc,
    Enter,
    Tab,
    BackTab,
    Backspace,
    Delete,
    Insert,
    Up,
    Down,
    Left,
    Right,
    Home,
    End,
    PageUp,
    PageDown,
    F(u8),
    Other,
}

/// The key code of Alt with a lower-case letter; 0 for any other character.
pub open spec fn alt_code(c: char) -> KeyCode {
    match c {
        'a' => 0x1E00,
        'b' => 0x3000,
        'c' => 0x2E00,
        'd' => 0x2000,
        'e' => 0x1200,
        'f' => 0x2100,
        'g' => 0x2200,
        'h' => 0x2300,
        'i' => 0x1700,
        'j' => 0x2400,
        'k' => 0x2500,
        'l' => 0x2600,
        'm' => 0x3200,
        'n' => 0x3100,
        'o' => 0x1800,
        'p' => 0x1900,
        'q' => 0x1000,
        'r' => 0x1300,
        's' => 0x1F00,
        't' => 0x1400,
        'u' => 0x1600,
        'v' => 0x2F00,
        'w' => 0x1100,
        'x' => 0x2D00,
        'y' => 0x1500,
        'z' => 0x2C00,
        _ => 0,
    }
}

/// The key code of a key pressed on its own (0: no code).
pub open spec fn key_code_of(k: KeyInput) -> KeyCode {
    match k {
        KeyInput::Char(c) => if (c as u32) < 0x10000 { c as u16 } else { 0 },
        KeyInput::Ctrl(c) => if 'a' <= c <= 'z' { (c as u32 - 'a' as u32 + 1) as u16 } else { 0 },
        KeyInput::Alt(c) => alt_code(c),
        KeyInput::Esc => KB_ESC,
        KeyInput::Enter => KB_ENTER,
        KeyInput::Tab => KB_TAB,
        KeyInput::BackTab => KB_SHIFT_TAB,
        KeyInput::Backspace => KB_BACKSPACE,
        KeyInput::Delete => KB_DEL,
        KeyInput::Insert => KB_INS,
        KeyInput::Up => KB_UP,
        KeyInput::Down => KB_DOWN,
        KeyInput::Left => KB_LEFT,
        KeyInput::Right => KB_RIGHT,
        KeyInput::Home => KB_HOME,
        KeyInput::End => KB_END,
        KeyInput::PageUp => KB_PGUP,
        KeyInput::PageDown => KB_PGDN,
        KeyInput::F(n) => if 1 <= n <= 10 { (0x3A00 + 0x100 * n) as u16 } else if n == 11 { KB_F11 } else if n == 12 { KB_F12 } else { 0 },
        KeyInput::Other => 0,
    }
}

/// The code of escape followed by a character, where that pair is a known
/// sequence (0: it is not).
pub open spec fn esc_sequence_code(k: KeyInput) -> KeyCode {
    match k {
        KeyInput::Esc => KB_ESC_ESC,
        KeyInput::Char(c) => if c == 'e' || c == 'E' { KB_ESC_E } else if c == 'f' || c == 'F' { KB_ESC_F } else if c == 'h' || c == 'H' { KB_ESC_H } else if c == 's' || c == 'S' { KB_ESC_S } else if c == 'v' || c == 'V' { KB_ESC_V } else if c == 'x' || c == 'X' { KB_ESC_X } else { 0 },
        _ => 0,
    }
}

/// The codes emitted for key `k` from the idle state, and whether an escape is then pending.
pub open spec fn idle_step(k: KeyInput) -> (bool, Seq<KeyCode>) {
    if k == KeyInput::Esc {
        (true, Seq::empty())
    } else if key_code_of(k) == 0 {
        (false, Seq::empty())
    } else {
        (false, seq![key_code_of(k)])
    }
}

/// One step of the decoder: from whether an escape is pending and a key, to
/// whether one is pending afterwards and the codes emitted. An unknown
/// continuation resolves the escape on its own and is then read from idle.
pub open spec fn decode_step(pending: bool, k: KeyInput) -> (bool, Seq<KeyCode>) {
    if !pending {
        idle_step(k)
    } else if esc_sequence_code(k) != 0 {
        (false, seq![esc_sequence_code(k)])
    } else {
        (idle_step(k).0, seq![KB_ESC] + idle_step(k).1)
    }
}

pub fn alt_letter_code(c: char) -> (r: KeyCode)
    ensures
        r == alt_code(c),
{
    match c {
        'a' => 0x1E00,
        'b' => 0x3000,
        'c' => 0x2E00,
        'd' => 0x2000,
        'e' => 0x1200,
        'f' => 0x2100,
        'g' => 0x2200,
        'h' => 0x2300,
        'i' => 0x1700,
        'j' => 0x2400,
        'k' => 0x2500,
        'l' => 0x2600,
        'm' => 0x3200,
        'n' => 0x3100,
        'o' => 0x1800,
        'p' => 0x1900,
        'q' => 0x1000,
        'r' => 0x1300,
        's' => 0x1F00,
        't' => 0x1400,
        'u' => 0x1600,
        'v' => 0x2F00,
        'w' => 0x1100,
        'x' => 0x2D00,
        'y' => 0x1500,
        'z' => 0x2C00,
        _ => 0,
    }
}

/// The key code of a key pressed on its own (0: no code).
pub fn key_code(k: KeyInput) -> (r: KeyCode)
    ensures
        r == key_code_of(k),
{
    match k {
        KeyInput::Char(c) => if (c as u32) < 0x10000 { c as u16 } else { 0 },
        KeyInput::Ctrl(c) => if 'a' <= c && c <= 'z' { (c as u32 - 'a' as u32 + 1) as u16 } else { 0 },
        KeyInput::Alt(c) => alt_letter_code(c),
        KeyInput::Esc => KB_ESC,
        KeyInput::Enter => KB_ENTER,
        KeyInput::Tab => KB_TAB,
        KeyInput::BackTab => KB_SHIFT_TAB,
        KeyInput::Backspace => KB_BACKSPACE,
        KeyInput::Delete => KB_DEL,
        KeyInput::Insert => KB_INS,
        KeyInput::Up => KB_UP,
        KeyInput::Down => KB_DOWN,
        KeyInput::Left => KB_LEFT,
        KeyInput::Right => KB_RIGHT,
        KeyInput::Home => KB_HOME,
        KeyInput::End => KB_END,
        KeyInput::PageUp => KB_PGUP,
        KeyInput::PageDown => KB_PGDN,
        KeyInput::F(n) => if 1 <= n && n <= 10 { 0x3A00 + 0x100 * (n as u16) } else if n == 11 { KB_F11 } else if n == 12 { KB_F12 } else { 0 },
        KeyInput::Other => 0,
    }
}

fn esc_code(k: KeyInput) -> (r: KeyCode)
    ensures
        r == esc_sequence_code(k),
{
    match k {
        KeyInput::Esc => KB_ESC_ESC,
        KeyInput::Char(c) => if c == 'e' || c == 'E' { KB_ESC_E } else if c == 'f' || c == 'F' { KB_ESC_F } else if c == 'h' || c == 'H' { KB_ESC_H } else if c == 's' || c == 'S' { KB_ESC_S } else if c == 'v' || c == 'V' { KB_ESC_V } else if c == 'x' || c == 'X' { KB_ESC_X } else { 0 },
        _ => 0,
    }
}

#[derive(Debug, Clone, Copy, PartialEq, Eq, Structural)]
pub enum MouseButton {
    Left,
    Right,
    Middle,
}

#[derive(Debug, Clone, Copy, PartialEq, Eq, Structural)]
pub enum MouseKind {
    Down(MouseButton),
    Up(MouseButton),
    Drag(MouseButton),
    Moved,
    Scroll,
}

/// A mouse primitive as the platform layer reports it.
#[derive(Debug, Clone, Copy, PartialEq, Eq, Structural)]
pub struct MouseInput {
    pub kind: MouseKind,
    pub column: u16,
    pub row: u16,
}

pub open spec fn button_mask(b: MouseButton) -> u8 {
    match b {
        MouseButton::Left => MB_LEFT_BUTTON,
        MouseButton::Right => MB_RIGHT_BUTTON,
        MouseButton::Middle => MB_MIDDLE_BUTTON,
    }
}

/// The position that a mouse primitive reports, clamped to `i16`.
pub open spec fn mouse_pos(m: MouseInput) -> Point {
    Point {
        x: if m.column > 32767 { 32767 } else { m.column as i16 },
        y: if m.row > 32767 { 32767 } else { m.row as i16 },
    }
}

/// The event for a mouse primitive given the buttons held before it, and the
/// buttons held after it. A move reports the buttons still held; a release
/// reports and leaves none held.
pub open spec fn mouse_step(held: u8, m: MouseInput) -> (Option<Event>, u8) {
    match m.kind {
        MouseKind::Down(b) => (
            Some(Event { what: EventType::MouseDown, key_code: 0, mouse: MouseEvent { pos: mouse_pos(m), buttons: button_mask(b), double_click: false }, command: 0 }),
            button_mask(b),
        ),
        MouseKind::Up(_) => (
            Some(Event { what: EventType::MouseUp, key_code: 0, mouse: MouseEvent { pos: mouse_pos(m), buttons: 0, double_click: false }, command: 0 }),
            0,
        ),
        MouseKind::Drag(b) => (
            Some(Event { what: EventType::MouseMove, key_code: 0, mouse: MouseEvent { pos: mouse_pos(m), buttons: button_mask(b), double_click: false }, command: 0 }),
            held,
        ),
        MouseKind::Moved => (
            Some(Event { what: EventType::MouseMove, key_code: 0, mouse: MouseEvent { pos: mouse_pos(m), buttons: held, double_click: false }, command: 0 }),
            held,
        ),
        MouseKind::Scroll => (None, held),
    }
}

/// The input decoder: idle, or holding an escape that may begin a sequence;
/// and the mouse buttons held.
pub struct InputDecoder {
    pending_esc: bool,
    mouse_buttons: u8,
}

impl InputDecoder {
    pub closed spec fn pending(&self) -> bool {
        self.pending_esc
    }

    pub closed spec fn held_buttons(&self) -> u8 {
        self.mouse_buttons
    }

    pub fn new() -> (r: InputDecoder)
        ensures
            !r.pending(),
            r.held_buttons() == 0,
    {
        InputDecoder { pending_esc: false, mouse_buttons: 0 }
    }

    /// Whether an escape waits for its continuation.
    pub fn is_pending(&self) -> (r: bool)
        ensures
            r == self.pending(),
    {
        self.pending_esc
    }

    fn idle_key(&mut self, k: KeyInput) -> (r: Vec<KeyCode>)
        ensures
            (final(self).pending(), r@) == idle_step(k),
            final(self).held_buttons() == old(self).held_buttons(),
    {
        let mut out: Vec<KeyCode> = Vec::new();
        if k == KeyInput::Esc {
            self.pending_esc = true;
        } else {
            self.pending_esc = false;
            let code = key_code(k);
            if code != 0 {
                out.push(code);
            }
        }
        assert(out@ == idle_step(k).1);
        out
    }

    /// Feeds one key; returns the key codes it completes, in order (none while
    /// an escape waits for its continuation).
    pub fn process_key(&mut self, k: KeyInput) -> (r: Vec<KeyCode>)
        ensures
            (final(self).pending(), r@) == decode_step(old(self).pending(), k),
            final(self).held_buttons() == old(self).held_buttons(),
    {
        if !self.pending_esc {
            return self.idle_key(k);
        }
        let code = esc_code(k);
        if code != 0 {
            self.pending_esc = false;
            let mut out: Vec<KeyCode> = Vec::new();
            out.push(code);
            assert(out@ == seq![code]);
            return out;
        }
        let mut out: Vec<KeyCode> = Vec::new();
        out.push(KB_ESC);
        let rest = self.idle_key(k);
        let mut i: usize = 0;
        while i < rest.len()
            invariant
                i <= rest@.len(),
                out@ == seq![KB_ESC] + rest@.subrange(0, i as int),
            decreases rest@.len() - i,
        {
            out.push(rest[i]);
            assert(rest@.subrange(0, i + 1) =~= rest@.subrange(0, i as int).push(rest@[i as int]));
            assert(seq![KB_ESC] + rest@.subrange(0, i + 1) =~= (seq![KB_ESC] + rest@.subrange(0, i as int)).push(rest@[i as int]));
            i = i + 1;
        }
        assert(rest@.subrange(0, i as int) =~= rest@);
        out
    }

    /// No key came within the polling interval: a waiting escape is a lone escape.
    pub fn timeout(&mut self) -> (r: Option<KeyCode>)
        ensures
            r == if old(self).pending() { Some(KB_ESC) } else { None::<KeyCode> },
            !final(self).pending(),
            final(self).held_buttons() == old(self).held_buttons(),
    {
        if self.pending_esc {
            self.pending_esc = false;
            Some(KB_ESC)
        } else {
            None
        }
    }

    /// Translates a mouse primitive into an event, tracking the held buttons.
    pub fn convert_mouse_event(&mut self, m: MouseInput) -> (r: Option<Event>)
        ensures
            (r, final(self).held_buttons()) == mouse_step(old(self).held_buttons(), m),
            final(self).pending() == old(self).pending(),
    {
        let pos = Point {
            x: if m.column > 32767 { 32767 } else { m.column as i16 },
            y: if m.row > 32767 { 32767 } else { m.row as i16 },
        };
        match m.kind {
            MouseKind::Down(b) => {
                let mask = mouse_button_mask(b);
                self.mouse_buttons = mask;
                Some(Event::mouse(EventType::MouseDown, pos, mask, false))
            },
            MouseKind::Up(_) => {
                self.mouse_buttons = 0;
                Some(Event::mouse(EventType::MouseUp, pos, 0, false))
            },
            MouseKind::Drag(b) => {
                let mask = mouse_button_mask(b);
                Some(Event::mouse(EventType::MouseMove, pos, mask, false))
            },
            MouseKind::Moved => Some(Event::mouse(EventType::MouseMove, pos, self.mouse_buttons, false)),
            MouseKind::Scroll => None,
        }
    }
}

fn mouse_button_mask(b: MouseButton) -> (r: u8)
    ensures
        r == button_mask(b),
{
    match b {
        MouseButton::Left => MB_LEFT_BUTTON,
        MouseButton::Right => MB_RIGHT_BUTTON,
        MouseButton::Middle => MB_MIDDLE_BUTTON,
    }
}

} // verus!
