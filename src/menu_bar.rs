//! The menu bar: a row of menu titles, each opening a drop-down of items.
use vstd::prelude::*;
use crate::command::CommandId;
use crate::draw::{Cell, DrawBuffer, plain_len, shortcut_display};
use crate::event::{
    Event, EventType, KeyCode, KB_ALT_F, KB_ALT_H, KB_DOWN, KB_ENTER, KB_ESC, KB_ESC_E, KB_ESC_ESC,
    KB_ESC_F, KB_ESC_H, KB_ESC_S, KB_ESC_V, KB_F1, KB_LEFT, KB_RIGHT, KB_UP, MB_LEFT_BUTTON,
    command_event, nothing_event,
};
use crate::geometry::{Rect, clamp16, clamp_i16};
use crate::palette::{Attr, TvColor};
use crate::terminal::Terminal;

verus! {

pub enum MenuItem {
    Regular {
        text: String,
        command: CommandId,
        key_code: KeyCode,
        enabled: bool,
        shortcut: Option<String>,
    },
    Separator,
}

pub open spec fn selectable(item: MenuItem) -> bool {
    match item {
        MenuItem::Regular { enabled, .. } => enabled,
        MenuItem::Separator => false,
    }
}

/// The lower-case form of an ASCII letter; other characters are unchanged.
pub open spec fn ascii_lower(c: char) -> char {
    if 'A' <= c <= 'Z' {
        ((c as u32) + 32) as char
    } else {
        c
    }
}

fn to_ascii_lower(c: char) -> (r: char)
    ensures
        r == ascii_lower(c),
{
    if 'A' <= c && c <= 'Z' {
        ((c as u8) + 32) as char
    } else {
        c
    }
}

/// The accelerator of a text: the character after its first `~`, in lower case.
pub open spec fn accelerator_of(s: Seq<char>) -> Option<char>
    decreases s.len(),
{
    if s.len() < 2 {
        None
    } else if s[0] == '~' {
        Some(ascii_lower(s[1]))
    } else {
        accelerator_of(s.drop_first())
    }
}

fn accelerator(text: &str) -> (r: Option<char>)
    ensures
    r == accelerator_of(text@),
{
    let n = text.unicode_len();
    let mut i: usize = 0;
    assert(text@.skip(0) =~= text@);
    while i < n && n - i >= 2
        invariant
            n == text@.len(),
            i <= n,
            accelerator_of(text@) == accelerator_of(text@.skip(i as int)),
        decreases n - i,
    {
        let ghost rest = text@.skip(i as int);
        assert(rest.drop_first() =~= text@.skip(i + 1));
        assert(rest.len() >= 2 && rest[0] == text@[i as int] && rest[1] == text@[i + 1]);
        if text.get_char(i) == '~' {
            let c = text.get_char(i + 1);
            assert(accelerator_of(rest) == Some(ascii_lower(c)));
            let l = to_ascii_lower(c);
            return Some(l);
        }
        i = i + 1;
    }
    assert(text@.skip(i as int).len() < 2);
    None
}

impl MenuItem {
    pub fn new(text: &str, command: CommandId, key_code: KeyCode) -> (r: MenuItem)
        ensures
            r matches MenuItem::Regular { text: t, command: c, key_code: k, enabled: true, shortcut: None }
                && t@ == text@ && c == command && k == key_code,
    {
        MenuItem::Regular { text: text.to_string(), command, key_code, enabled: true, shortcut: None }
    }

    pub fn new_with_shortcut(text: &str, command: CommandId, key_code: KeyCode, shortcut: &str) -> (r: MenuItem)
        ensures
            r matches MenuItem::Regular { text: t, command: c, key_code: k, enabled: true, shortcut: Some(s) }
                && t@ == text@ && c == command && k == key_code && s@ == shortcut@,
    {
        MenuItem::Regular { text: text.to_string(), command, key_code, enabled: true, shortcut: Some(shortcut.to_string()) }
    }

    pub fn new_disabled(text: &str, command: CommandId, key_code: KeyCode) -> (r: MenuItem)
        ensures
            r matches MenuItem::Regular { text: t, command: c, key_code: k, enabled: false, shortcut: None }
                && t@ == text@ && c == command && k == key_code,
    {
        MenuItem::Regular { text: text.to_string(), command, key_code, enabled: false, shortcut: None }
    }

    pub fn separator() -> (r: MenuItem)
        ensures
            r matches MenuItem::Separator,
    {
        MenuItem::Separator
    }

    /// Whether the item can be chosen: an enabled regular item.
    pub fn is_selectable(&self) -> (r: bool)
        ensures
            r == selectable(*self),
    {
        match self {
            MenuItem::Regular { enabled, .. } => *enabled,
            MenuItem::Separator => false,
        }
    }

    /// The character after the first `~` of the text, in lower case.
    pub fn get_accelerator(&self) -> (r: Option<char>)
        ensures
            r == match *self {
                MenuItem::Regular { text, .. } => accelerator_of(text@),
                MenuItem::Separator => None,
            },
    {
        match self {
            MenuItem::Regular { text, .. } => accelerator(text.as_str()),
            MenuItem::Separator => None,
        }
    }

    fn text_len(&self) -> (r: usize) {
        match self {
            MenuItem::Regular { text, .. } => plain_len(text.as_str()),
            MenuItem::Separator => 0,
        }
    }
}

pub struct SubMenu {
    pub name: String,
    pub items: Vec<MenuItem>,
}

impl SubMenu {
    pub fn new(name: &str) -> (r: SubMenu)
        ensures
            r.name@ == name@,
            r.items@.len() == 0,
    {
        SubMenu { name: name.to_string(), items: Vec::new() }
    }

    pub fn add_item(&mut self, item: MenuItem)
        ensures
            final(self).name == old(self).name,
            final(self).items@ == old(self).items@.push(item),
    {
        self.items.push(item);
    }

    /// The width of the drop-down that mouse hits are tested against.
    fn hit_width(&self) -> (r: usize)
        ensures
            r >= 12,
    {
        let mut w: usize = 12;
        let mut i: usize = 0;
        while i < self.items.len()
            invariant
                w >= 12,
            decreases self.items@.len() - i,
        {
            let t = self.items[i].text_len();
            if t < 60000 && t + 2 > w {
                w = t + 2;
            }
            i = i + 1;
        }
        w
    }
}

/// The command of item `i` of a menu, if that item is an enabled regular item.
pub open spec fn enabled_command(menu: SubMenu, i: int) -> Option<CommandId> {
    if 0 <= i < menu.items@.len() {
        match menu.items@[i] {
            MenuItem::Regular { command, enabled, .. } => if enabled { Some(command) } else { None },
            MenuItem::Separator => None,
        }
    } else {
        None
    }
}

/// The column where the title of menu `i` starts on the bar: the first at
/// column 1, each next one after the previous title and a space either side.
pub open spec fn title_column(menus: Seq<SubMenu>, i: nat) -> int
    decreases i,
{
    if i == 0 {
        1
    } else {
        let prev = title_column(menus, (i - 1) as nat);
        let n = shortcut_display(menus[i - 1].name@, false).len();
        if prev < 100000 {
            prev + (if n < 50000 { n as int } else { 50000 }) + 2
        } else {
            prev
        }
    }
}

pub struct MenuBar {
    pub bounds: Rect,
    pub menus: Vec<SubMenu>,
    pub menu_positions: Vec<i16>,
    pub active_menu: Option<usize>,
    pub selected_item: usize,
}

impl MenuBar {
    /// One recorded position per menu, and the open menu is one of them.
    pub open spec fn wf(&self) -> bool {
        &&& self.menu_positions@.len() == self.menus@.len()
        &&& match self.active_menu {
            Some(m) => m < self.menus@.len(),
            None => true,
        }
    }

    pub fn new(bounds: Rect) -> (r: MenuBar)
        ensures
            r.wf(),
            r.bounds == bounds,
            r.menus@.len() == 0,
            r.active_menu.is_none(),
    {
        MenuBar { bounds, menus: Vec::new(), menu_positions: Vec::new(), active_menu: None, selected_item: 0 }
    }

    pub fn add_menu(&mut self, menu: SubMenu)
        requires
            old(self).wf(),
        ensures
            final(self).wf(),
            final(self).menus@ == old(self).menus@.push(menu),
            final(self).active_menu == old(self).active_menu,
    {
        self.menus.push(menu);
        self.menu_positions.push(0);
    }

    /// Highlights the first selectable item of a menu (the first item if none is).
    fn select_first_item(&mut self, menu_idx: usize)
        requires
            old(self).wf(),
        ensures
            final(self).wf(),
            final(self).menus == old(self).menus,
            final(self).menu_positions == old(self).menu_positions,
            final(self).active_menu == old(self).active_menu,
            final(self).bounds == old(self).bounds,
            menu_idx < old(self).menus@.len() && (exists|j: int| 0 <= j < old(self).menus@[menu_idx as int].items@.len()
                && selectable(#[trigger] old(self).menus@[menu_idx as int].items@[j]))
                ==> final(self).selected_item < old(self).menus@[menu_idx as int].items@.len()
                && selectable(old(self).menus@[menu_idx as int].items@[final(self).selected_item as int]),
    {
        if menu_idx < self.menus.len() {
            let n = self.menus[menu_idx].items.len();
            let mut i: usize = 0;
            while i < n
                invariant
                    self.menus == old(self).menus,
                    self.menu_positions == old(self).menu_positions,
                    self.active_menu == old(self).active_menu,
                    self.bounds == old(self).bounds,
                    old(self).wf(),
                    menu_idx < self.menus@.len(),
                    n == self.menus@[menu_idx as int].items@.len(),
                    forall|j: int| 0 <= j < i ==> !selectable(#[trigger] self.menus@[menu_idx as int].items@[j]),
                decreases n - i,
            {
                if self.menus[menu_idx].items[i].is_selectable() {
                    self.selected_item = i;
                    return;
                }
                i = i + 1;
            }
            self.selected_item = 0;
        }
    }

    /// Opens a menu and highlights its first selectable item.
    fn open_menu(&mut self, idx: usize)
        requires
            old(self).wf(),
            idx < old(self).menus@.len(),
        ensures
            final(self).wf(),
            final(self).menus == old(self).menus,
            final(self).active_menu == Some(idx),
            final(self).bounds == old(self).bounds,
    {
        self.active_menu = Some(idx);
        self.select_first_item(idx);
    }
}

pub open spec fn menu_step(pre: MenuBar, post: MenuBar, ev0: Event, ev1: Event) -> bool {
    &&& (post.wf())
    &&& (post.menus == pre.menus)
    &&& (post.bounds == pre.bounds)
    &&& (ev0.what == EventType::Keyboard && pre.menus@.len() > 0 && (ev0.key_code == KB_ALT_F
                || ev0.key_code == KB_F1 || ev0.key_code == KB_ESC_F)
                ==> post.active_menu == Some(0usize) && ev1 == nothing_event())
    &&& (ev0.what == EventType::Keyboard && pre.active_menu.is_some() && (ev0.key_code == KB_ESC
                || ev0.key_code == KB_ESC_ESC)
                ==> post.active_menu.is_none() && ev1 == nothing_event())
    &&& (ev0.what == EventType::Keyboard && pre.active_menu.is_none() && !(pre.menus@.len() > 0
                && (ev0.key_code == KB_ALT_F || ev0.key_code == KB_F1 || ev0.key_code == KB_ESC_F
                || ev0.key_code == KB_ESC_E || ev0.key_code == KB_ESC_S || ev0.key_code == KB_ESC_V
                || ev0.key_code == KB_ALT_H || ev0.key_code == KB_ESC_H))
                ==> post == pre && ev1 == ev0)
    &&& (ev0.what == EventType::Keyboard && ev0.key_code == KB_ENTER && pre.active_menu.is_some()
                ==> match enabled_command(pre.menus@[pre.active_menu.unwrap() as int], pre.selected_item as int) {
                    Some(c) => post.active_menu.is_none() && ev1 == command_event(c),
                    None => post.active_menu == pre.active_menu && ev1 == nothing_event(),
                })
    &&& (ev0.what == EventType::Keyboard && (ev0.key_code == KB_DOWN || ev0.key_code == KB_UP)
                && pre.active_menu.is_some() ==> post.active_menu == pre.active_menu
                && ev1 == nothing_event() && (pre.menus@[pre.active_menu.unwrap() as int].items@.len() > 0
                ==> post.selected_item < pre.menus@[pre.active_menu.unwrap() as int].items@.len()))
    &&& (ev0.what == EventType::Command || ev0.what == EventType::Broadcast
                || ev0.what == EventType::Nothing || ev0.what == EventType::MouseUp
                ==> post == pre && ev1 == ev0)
}

impl MenuBar {
    fn item_is_regular_enabled(&self, m: usize, i: usize) -> (r: Option<CommandId>)
        requires
            m < self.menus@.len(),
        ensures
            r.is_some() ==> i < self.menus@[m as int].items@.len() && selectable(self.menus@[m as int].items@[i as int]),
            r == enabled_command(self.menus@[m as int], i as int),
    {
        if i < self.menus[m].items.len() {
            match &self.menus[m].items[i] {
                MenuItem::Regular { command, enabled, .. } => {
                    if *enabled {
                        return Some(*command);
                    }
                },
                MenuItem::Separator => {},
            }
        }
        None
    }

    /// The menu title under column `x` of the bar, if any.
    fn title_at(&self, x: i32) -> (r: Option<usize>)
        requires
            self.wf(),
        ensures
            r.is_some() ==> r.unwrap() < self.menus@.len(),
    {
        let mut i: usize = 0;
        while i < self.menu_positions.len()
            invariant
                self.wf(),
            decreases self.menu_positions@.len() - i,
        {
            let mx = self.menu_positions[i] as i32;
            let w = plain_len(self.menus[i].name.as_str());
            if w < 60000 {
                if x >= mx && x < mx + w as i32 + 2 {
                    return Some(i);
                }
            }
            i = i + 1;
        }
        None
    }

    /// The bar with the open menu's title highlighted, and the open menu's
    /// drop-down below its title.
    pub fn draw(&mut self, terminal: &mut Terminal)
        requires
            old(self).wf(),
            old(terminal).wf(),
        ensures
            final(self).wf(),
            final(self).menus == old(self).menus,
            final(self).active_menu == old(self).active_menu,
            final(self).bounds == old(self).bounds,
            old(terminal).drawn_into(*final(terminal)),
            old(self).bounds.spec_width() > 0 ==> forall|i: int| 0 <= i < old(self).menus@.len()
                ==> #[trigger] final(self).menu_positions@[i] == clamp16(title_column(old(self).menus@, i as nat)),
    {
        let ghost t0 = *terminal;
        proof {
            t0.lemma_drawn_into_refl();
        }
        let w = self.bounds.width();
        if w <= 0 {
            return;
        }
        let width = w as usize;
        let normal = Attr::new(TvColor::Black, TvColor::LightGray);
        let chosen = Attr::new(TvColor::White, TvColor::Green);
        let hot = Attr::new(TvColor::Red, TvColor::LightGray);
        let mut buf = DrawBuffer::new(width);
        buf.move_char(0, ' ', normal, width);
        let mut x: usize = 1;
        let mut i: usize = 0;
        while i < self.menus.len()
            invariant
                self.wf(),
                self.menus == old(self).menus,
                self.active_menu == old(self).active_menu,
                self.bounds == old(self).bounds,
                x <= 200000,
                i <= self.menus@.len(),
                x == title_column(self.menus@, i as nat),
                forall|j: int| 0 <= j < i ==> #[trigger] self.menu_positions@[j] == clamp16(title_column(self.menus@, j as nat)),
            decreases self.menus@.len() - i,
        {
            self.menu_positions.set(i, clamp_i16(x as i32));
            let is_open = match self.active_menu {
                Some(m) => m == i,
                None => false,
            };
            let attr = if is_open { chosen } else { normal };
            let hattr = if is_open { chosen } else { hot };
            if x < 100000 {
                buf.put_char(x, ' ', attr);
                let n = buf.move_str_with_shortcut(x + 1, self.menus[i].name.as_str(), attr, hattr);
                let n = if n < 50000 { n } else { 50000 };
                buf.put_char(x + 1 + n, ' ', attr);
                x = x + n + 2;
            }
            i = i + 1;
        }
        terminal.write_row(self.bounds.a.x as i32, self.bounds.a.y as i32, buf.data.as_slice());
        match self.active_menu {
            Some(m) => {
                let ghost t1 = *terminal;
                self.draw_dropdown(terminal, m);
                proof {
                    Terminal::lemma_drawn_into_trans(t0, t1, *terminal);
                }
            },
            None => {},
        }
    }

    fn draw_dropdown(&self, terminal: &mut Terminal, m: usize)
        requires
            self.wf(),
            m < self.menus@.len(),
            old(terminal).wf(),
        ensures
            old(terminal).drawn_into(*final(terminal)),
    {
        let ghost t0 = *terminal;
        proof {
            t0.lemma_drawn_into_refl();
        }
        let menu = &self.menus[m];
        let normal = Attr::new(TvColor::Black, TvColor::LightGray);
        let chosen = Attr::new(TvColor::White, TvColor::Green);
        let disabled = Attr::new(TvColor::DarkGray, TvColor::LightGray);
        let hot = Attr::new(TvColor::Red, TvColor::LightGray);
        let mut text_w: usize = 12;
        let mut short_w: usize = 0;
        let mut i: usize = 0;
        while i < menu.items.len()
            invariant
                12 <= text_w <= 60002,
                short_w <= 60002,
            decreases menu.items@.len() - i,
        {
            match &menu.items[i] {
                MenuItem::Regular { text, shortcut, .. } => {
                    let t = plain_len(text.as_str());
                    if t > text_w && t < 60000 {
                        text_w = t;
                    }
                    match shortcut {
                        Some(sc) => {
                            let l = sc.unicode_len();
                            if l > short_w && l < 60000 {
                                short_w = l;
                            }
                        },
                        None => {},
                    }
                },
                MenuItem::Separator => {},
            }
            i = i + 1;
        }
        let dw: usize = if short_w > 0 { text_w + 2 + short_w + 2 } else { text_w + 2 };
        let mx = self.menu_positions[m] as i32;
        let my = self.bounds.a.y as i32 + 1;
        let mut top = DrawBuffer::new(dw);
        top.move_char(0, '\u{2500}', normal, dw);
        top.put_char(0, '\u{250c}', normal);
        top.put_char(dw - 1, '\u{2510}', normal);
        terminal.write_row(mx, my, top.data.as_slice());
        let ghost t1 = *terminal;
        proof {
            Terminal::lemma_drawn_into_trans(t0, t0, t1);
        }
        let n = menu.items.len();
        let mut j: usize = 0;
        while j < n && j < 60000
            invariant
                n == menu.items@.len(),
                j <= 60000,
                dw >= 14,
                dw <= 120010,
                -32768 <= mx <= 32767,
                -32767 <= my <= 32768,
                t0.drawn_into(*terminal),
            decreases n - j,
        {
            let mut row = DrawBuffer::new(dw);
            match &menu.items[j] {
                MenuItem::Separator => {
                    row.move_char(0, '\u{2500}', normal, dw);
                    row.put_char(0, '\u{251c}', normal);
                    row.put_char(dw - 1, '\u{2524}', normal);
                },
                MenuItem::Regular { text, enabled, shortcut, .. } => {
                    let attr = if j == self.selected_item && *enabled {
                        chosen
                    } else if !*enabled {
                        disabled
                    } else {
                        normal
                    };
                    let hattr = if *enabled && j != self.selected_item { hot } else { attr };
                    row.move_char(0, ' ', attr, dw);
                    row.move_str_with_shortcut(1, text.as_str(), attr, hattr);
                    match shortcut {
                        Some(sc) => {
                            let l = sc.unicode_len();
                            if l < dw - 1 {
                                row.move_str(dw - 1 - l, sc.as_str(), attr);
                            }
                        },
                        None => {},
                    }
                    row.put_char(0, '\u{2502}', normal);
                    row.put_char(dw - 1, '\u{2502}', normal);
                },
            }
            let ghost tp = *terminal;
            terminal.write_row(mx, my + 1 + j as i32, row.data.as_slice());
            proof {
                Terminal::lemma_drawn_into_trans(t0, tp, *terminal);
            }
            j = j + 1;
        }
        let mut bottom = DrawBuffer::new(dw);
        bottom.move_char(0, '\u{2500}', normal, dw);
        bottom.put_char(0, '\u{2514}', normal);
        bottom.put_char(dw - 1, '\u{2518}', normal);
        let ghost tp = *terminal;
        terminal.write_row(mx, my + 1 + j as i32, bottom.data.as_slice());
        proof {
            Terminal::lemma_drawn_into_trans(t0, tp, *terminal);
        }
    }

    /// Mouse and keyboard handling of the bar and the open menu. The File-menu
    /// keys (Alt-F, F1, Esc F) open the first menu; Escape closes the open menu;
    /// Enter on an enabled item, or its accelerator, closes the menu and becomes
    /// the item's command.
    pub fn handle_event(&mut self, event: &mut Event)
        requires
            old(self).wf(),
        ensures
            menu_step(*old(self), *final(self), *old(event), *final(event)),
    {
        if event.what == EventType::MouseDown {
            self.handle_mouse_down(event);
            return;
        }
        if event.what == EventType::MouseMove {
            self.handle_mouse_move(event);
            return;
        }
        if event.what != EventType::Keyboard {
            return;
        }
        let k = event.key_code;
        let n = self.menus.len();
        if (k == KB_ALT_F || k == KB_F1 || k == KB_ESC_F) && n > 0 {
            self.open_menu(0);
            event.clear();
            return;
        }
        if k == KB_ESC_E && n > 1 {
            self.open_menu(1);
            event.clear();
            return;
        }
        if k == KB_ESC_S && n > 2 {
            self.open_menu(2);
            event.clear();
            return;
        }
        if k == KB_ESC_V && n > 3 {
            self.open_menu(3);
            event.clear();
            return;
        }
        if (k == KB_ALT_H || k == KB_ESC_H) && n > 1 {
            self.open_menu(n - 1);
            event.clear();
            return;
        }
        match self.active_menu {
            None => {},
            Some(m) => {
                if k == KB_ESC || k == KB_ESC_ESC {
                    self.active_menu = None;
                    event.clear();
                } else if k == KB_LEFT {
                    let t = if m > 0 { m - 1 } else { n - 1 };
                    self.open_menu(t);
                    event.clear();
                } else if k == KB_RIGHT {
                    let t = if m + 1 < n { m + 1 } else { 0 };
                    self.open_menu(t);
                    event.clear();
                } else if k == KB_DOWN || k == KB_UP {
                    let count = self.menus[m].items.len();
                    if count > 0 {
                        let start = if self.selected_item < count { self.selected_item } else { 0 };
                        let mut cur = start;
                        let mut steps: usize = 0;
                        while steps < count
                            invariant
                                cur < count,
                                self.wf(),
                                self.menus == old(self).menus,
                                self.bounds == old(self).bounds,
                                m < self.menus@.len(),
                                count == self.menus@[m as int].items@.len(),
                            decreases count - steps,
                        {
                            cur = if k == KB_DOWN {
                                if cur + 1 < count { cur + 1 } else { 0 }
                            } else {
                                if cur > 0 { cur - 1 } else { count - 1 }
                            };
                            if self.menus[m].items[cur].is_selectable() || cur == start {
                                break;
                            }
                            steps = steps + 1;
                        }
                        self.selected_item = cur;
                    }
                    event.clear();
                } else if k == KB_ENTER {
                    match self.item_is_regular_enabled(m, self.selected_item) {
                        Some(cmd) => {
                            self.active_menu = None;
                            *event = Event::command(cmd);
                        },
                        None => {
                            event.clear();
                        },
                    }
                } else if 32 <= k && k < 127 {
                    let pressed = to_ascii_lower(((k as u8) as char));
                    let count = self.menus[m].items.len();
                    let mut i: usize = 0;
                    while i < count
                        invariant
                            self.wf(),
                            self.menus == old(self).menus,
                            self.bounds == old(self).bounds,
                            m < self.menus@.len(),
                            count == self.menus@[m as int].items@.len(),
                            *event == *old(event),
                            old(event).what == EventType::Keyboard,
                            k == old(event).key_code,
                            32 <= k < 127,
                            old(self).active_menu == Some(m),
                        decreases count - i,
                    {
                        let item = &self.menus[m].items[i];
                        if item.get_accelerator() == Some(pressed) {
                            match self.item_is_regular_enabled(m, i) {
                                Some(cmd) => {
                                    self.active_menu = None;
                                    *event = Event::command(cmd);
                                    return;
                                },
                                None => {},
                            }
                        }
                        i = i + 1;
                    }
                }
            },
        }
    }

    fn handle_mouse_down(&mut self, event: &mut Event)
        requires
            old(self).wf(),
        ensures
            final(self).wf(),
            final(self).menus == old(self).menus,
            final(self).bounds == old(self).bounds,
    {
        let p = event.mouse.pos;
        if event.mouse.buttons & MB_LEFT_BUTTON == 0 {
            return;
        }
        if p.y == self.bounds.a.y {
            match self.title_at(p.x as i32) {
                Some(i) => {
                    let same = match self.active_menu {
                        Some(m) => m == i,
                        None => false,
                    };
                    if same {
                        self.active_menu = None;
                    } else {
                        self.open_menu(i);
                    }
                    event.clear();
                    return;
                },
                None => {
                    if self.active_menu.is_some() {
                        self.active_menu = None;
                        event.clear();
                        return;
                    }
                },
            }
        }
        match self.active_menu {
            Some(m) => {
                let mx = self.menu_positions[m] as i32;
                let my = self.bounds.a.y as i32 + 1;
                let dw = self.menus[m].hit_width();
                let count = self.menus[m].items.len();
                let px = p.x as i32;
                let py = p.y as i32;
                if dw < 60000 && count < 60000 && px >= mx && px < mx + dw as i32 && py > my && py <= my + count as i32 {
                    let idx = (py - my - 1) as usize;
                    match self.item_is_regular_enabled(m, idx) {
                        Some(cmd) => {
                            self.active_menu = None;
                            *event = Event::command(cmd);
                        },
                        None => {},
                    }
                } else {
                    self.active_menu = None;
                    event.clear();
                }
            },
            None => {},
        }
    }

    fn handle_mouse_move(&mut self, event: &mut Event)
        requires
            old(self).wf(),
        ensures
            final(self).wf(),
            final(self).menus == old(self).menus,
            final(self).bounds == old(self).bounds,
            *final(event) == *old(event),
    {
        match self.active_menu {
            Some(m) => {
                let p = event.mouse.pos;
                let mx = self.menu_positions[m] as i32;
                let my = self.bounds.a.y as i32 + 1;
                let dw = self.menus[m].hit_width();
                let count = self.menus[m].items.len();
                let px = p.x as i32;
                let py = p.y as i32;
                if dw < 60000 && count < 60000 && px >= mx && px < mx + dw as i32 && py > my && py <= my + count as i32 {
                    self.selected_item = (py - my - 1) as usize;
                }
                if p.y == self.bounds.a.y {
                    match self.title_at(px) {
                        Some(i) => {
                            if i != m {
                                self.open_menu(i);
                            }
                        },
                        None => {},
                    }
                }
            },
            None => {},
        }
    }
}

} // verus!
