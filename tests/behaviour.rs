use turbo_vision::ansi_dump::{color_to_ansi_bg, color_to_ansi_fg, dump_buffer, dump_buffer_region};
use turbo_vision::application::Application;
use turbo_vision::button::Button;
use turbo_vision::command::{CommandSet, CM_CANCEL, CM_QUIT};
use turbo_vision::control::Control;
use turbo_vision::draw::{Cell, DrawBuffer};
use turbo_vision::event::{
    Event, EventType, InputDecoder, KeyInput, MouseButton, MouseInput, MouseKind, KB_ALT_F, KB_ENTER,
    KB_ESC, KB_ESC_ESC, KB_ESC_F, KB_SHIFT_TAB, KB_TAB, MB_LEFT_BUTTON,
};
use turbo_vision::geometry::{Point, Rect};
use turbo_vision::group::Group;
use turbo_vision::input_line::InputLine;
use turbo_vision::label::Label;
use turbo_vision::menu_bar::{MenuBar, MenuItem, SubMenu};
use turbo_vision::msgbox::{input_box_dialog, message_box_dialog, MF_OK_CANCEL};
use turbo_vision::palette::{Attr, TvColor};
use turbo_vision::status_line::{StatusItem, StatusLine};
use turbo_vision::terminal::Terminal;
use turbo_vision::view::{Context, Widget, SF_MODAL};
use turbo_vision::file_dialog::{FileDialog, Selection};
use turbo_vision::window::{Dialog, Window};

fn button(x: i16, cmd: u16, is_default: bool) -> Control {
    Control::Button(Button::new(Rect::new(x, 0, x + 8, 2), "~B~tn", cmd, is_default))
}

fn focused_index(g: &Group<Control>) -> Option<usize> {
    let mut found = None;
    for i in 0..g.len() {
        if g.child_at(i).is_focused() {
            assert!(found.is_none());
            found = Some(i);
        }
    }
    found
}

#[test]
fn attr_round_trip_all_pairs() {
    for b in 0..=255u8 {
        let a = Attr::from_u8(b);
        assert_eq!(a.to_u8(), b);
        assert_eq!(Attr::from_u8(a.to_u8()), a);
    }
    let a = Attr::new(TvColor::Yellow, TvColor::Blue);
    assert_eq!(a.to_u8(), 0x1E);
}

#[test]
fn from_rgb_picks_nearest() {
    assert_eq!(TvColor::from_rgb(170, 85, 0), TvColor::Brown);
    assert_eq!(TvColor::from_rgb(250, 250, 250), TvColor::White);
    assert_eq!(TvColor::from_rgb(0, 0, 0), TvColor::Black);
    assert_eq!(TvColor::from_u8(0x1C), TvColor::LightRed);
}

#[test]
fn flush_of_identical_grids_writes_nothing() {
    let mut t = Terminal::new(10, 3);
    assert!(t.flush().is_empty());
}

#[test]
fn flush_covers_exactly_the_changed_cells() {
    let mut t = Terminal::new(10, 3);
    let red = Attr::new(TvColor::Red, TvColor::Black);
    let blue = Attr::new(TvColor::Blue, TvColor::Black);
    t.write_cell(2, 1, Cell::new('a', red));
    t.write_cell(3, 1, Cell::new('b', red));
    t.write_cell(4, 1, Cell::new('c', blue));
    t.write_cell(9, 2, Cell::new('z', red));
    let runs = t.flush();
    assert_eq!(runs.len(), 3);
    assert_eq!((runs[0].x, runs[0].y, runs[0].attr), (2, 1, red));
    assert_eq!(runs[0].text, vec!['a', 'b']);
    assert_eq!((runs[1].x, runs[1].y, runs[1].attr), (4, 1, blue));
    assert_eq!(runs[1].text, vec!['c']);
    assert_eq!((runs[2].x, runs[2].y), (9, 2));
    assert_eq!(t.shown_cell_at(3, 1), Some(Cell::new('b', red)));
    assert!(t.flush().is_empty());
}

#[test]
fn writes_outside_screen_or_clip_are_dropped() {
    let mut t = Terminal::new(5, 5);
    let c = Cell::new('x', Attr::new(TvColor::White, TvColor::Black));
    t.write_cell(7, 1, c);
    t.push_clip(Rect::new(1, 1, 3, 3));
    t.write_line(0, 1, &[c, c, c, c]);
    t.pop_clip();
    assert_eq!(t.cell_at(0, 1).unwrap().ch, ' ');
    assert_eq!(t.cell_at(1, 1).unwrap().ch, 'x');
    assert_eq!(t.cell_at(2, 1).unwrap().ch, 'x');
    assert_eq!(t.cell_at(3, 1).unwrap().ch, ' ');
    assert_eq!(t.cell_at(7, 1), None);
}

#[test]
fn child_drawing_stays_inside_its_container() {
    let mut t = Terminal::new(40, 20);
    let mut g: Group<Control> = Group::new(Rect::new(5, 5, 15, 10));
    g.add(Control::Label(Label::new(Rect::new(5, 2, 30, 3), "a long label that runs past")));
    g.draw(&mut t);
    for y in 0..20u16 {
        for x in 0..40u16 {
            let inside = (5..15).contains(&x) && (5..10).contains(&y);
            if !inside {
                assert_eq!(t.cell_at(x, y).unwrap().ch, ' ');
            }
        }
    }
    assert_eq!(t.cell_at(10, 7).unwrap().ch, 'a');
}

#[test]
fn tab_cycles_focus_and_wraps() {
    let mut g: Group<Control> = Group::new(Rect::new(0, 0, 80, 10));
    g.add(button(0, 100, false));
    g.add(button(10, 101, false));
    g.add(button(20, 102, false));
    g.set_focus_to(0);
    let mut ctx = Context::new();
    for expected in [1usize, 2, 0] {
        let mut e = Event::keyboard(KB_TAB);
        g.handle_event(&mut e, &mut ctx);
        assert_eq!(e.what, EventType::Nothing);
        assert_eq!(focused_index(&g), Some(expected));
    }
    let mut e = Event::keyboard(KB_SHIFT_TAB);
    g.handle_event(&mut e, &mut ctx);
    assert_eq!(focused_index(&g), Some(2));
}

#[test]
fn tab_without_focusable_children_changes_nothing() {
    let mut g: Group<Control> = Group::new(Rect::new(0, 0, 80, 10));
    g.add(Control::Label(Label::new(Rect::new(0, 0, 5, 1), "one")));
    g.add(Control::Label(Label::new(Rect::new(0, 1, 5, 2), "two")));
    g.select_next();
    assert_eq!(g.focused_index(), 0);
    assert_eq!(focused_index(&g), None);
}

#[test]
fn broadcast_reaches_every_child() {
    let mut g: Group<Control> = Group::new(Rect::new(0, 0, 80, 10));
    g.add(button(0, 7, false));
    g.add(button(10, 7, false));
    g.add(button(20, 8, false));
    g.set_focus_to(0);
    let mut ctx = Context::new();
    ctx.commands.disable_command(7);
    let mut e = Event::broadcast(turbo_vision::command::CM_COMMAND_SET_CHANGED);
    g.handle_event(&mut e, &mut ctx);
    assert!(!g.child_at(0).can_focus());
    assert!(!g.child_at(1).can_focus());
    assert!(g.child_at(2).can_focus());
}

#[test]
fn disable_then_enable_broadcasts_once_each() {
    let mut app = Application::new(80, 25);
    let mut w = Window::new(Rect::new(0, 0, 30, 10), "w");
    w.add(button(1, 5, false));
    app.desktop.add(w);
    app.ctx.commands.disable_command(5);
    assert!(app.idle());
    assert!(!app.desktop.child_at(0).child_at(0).can_focus());
    assert!(!app.idle());
    app.ctx.commands.enable_command(5);
    assert!(app.ctx.commands.is_enabled(5));
    assert!(app.idle());
    assert!(app.desktop.child_at(0).child_at(0).can_focus());
    assert!(!app.idle());
}

#[test]
fn lone_escape_and_double_escape() {
    let mut d = InputDecoder::new();
    assert!(d.process_key(KeyInput::Esc).is_empty());
    assert_eq!(d.timeout(), Some(KB_ESC));
    assert!(d.process_key(KeyInput::Esc).is_empty());
    assert_eq!(d.process_key(KeyInput::Esc), vec![KB_ESC_ESC]);
    assert_eq!(d.timeout(), None);
    assert!(d.process_key(KeyInput::Esc).is_empty());
    assert_eq!(d.process_key(KeyInput::Char('f')), vec![KB_ESC_F]);
    assert!(d.process_key(KeyInput::Esc).is_empty());
    assert_eq!(d.process_key(KeyInput::Char('q')), vec![KB_ESC, 'q' as u16]);
    assert_eq!(d.process_key(KeyInput::Alt('f')), vec![KB_ALT_F]);
    assert_eq!(d.process_key(KeyInput::Ctrl('c')), vec![3]);
}

#[test]
fn mouse_drag_reports_held_button() {
    let mut d = InputDecoder::new();
    let down = d.convert_mouse_event(MouseInput { kind: MouseKind::Down(MouseButton::Left), column: 3, row: 4 }).unwrap();
    assert_eq!(down.what, EventType::MouseDown);
    assert_eq!(down.mouse.pos, Point::new(3, 4));
    let moved = d.convert_mouse_event(MouseInput { kind: MouseKind::Moved, column: 5, row: 4 }).unwrap();
    assert_eq!(moved.what, EventType::MouseMove);
    assert_eq!(moved.mouse.buttons, MB_LEFT_BUTTON);
    let up = d.convert_mouse_event(MouseInput { kind: MouseKind::Up(MouseButton::Left), column: 5, row: 4 }).unwrap();
    assert_eq!(up.mouse.buttons, 0);
    let moved = d.convert_mouse_event(MouseInput { kind: MouseKind::Moved, column: 6, row: 4 }).unwrap();
    assert_eq!(moved.mouse.buttons, 0);
    assert!(d.convert_mouse_event(MouseInput { kind: MouseKind::Scroll, column: 6, row: 4 }).is_none());
}

#[test]
fn enter_presses_enabled_default_button() {
    let mut dlg = Dialog::new(Rect::new(10, 5, 50, 15), "Test");
    dlg.add(button(2, 42, true));
    dlg.add(button(12, CM_CANCEL, false));
    dlg.set_initial_focus();
    let mut ctx = Context::new();
    let mut e = Event::keyboard(KB_ENTER);
    // Enter reaches the focused default button first, which fires its command.
    dlg.handle_event(&mut e, &mut ctx);
    assert_eq!(e, Event::command(42));
    assert_eq!(dlg.find_default_button_command(), Some(42));
}

#[test]
fn enter_unclaimed_resolves_to_default_command() {
    let mut dlg = Dialog::new(Rect::new(10, 5, 50, 15), "Test");
    dlg.add(Control::CheckBox(turbo_vision::checkbox::CheckBox::new(Rect::new(1, 1, 20, 2), "Option")));
    dlg.add(button(2, 42, true));
    dlg.set_initial_focus();
    assert!(dlg.child_at(0).is_focused());
    let mut ctx = Context::new();
    let mut e = Event::keyboard(KB_ENTER);
    dlg.handle_event(&mut e, &mut ctx);
    assert_eq!(e, Event::command(42));
    let mut e = Event::keyboard(KB_ESC_ESC);
    dlg.apply_dialog_keys(&mut e);
    assert_eq!(e, Event::command(CM_CANCEL));
}

#[test]
fn enter_with_disabled_default_button_is_swallowed() {
    let mut dlg = Dialog::new(Rect::new(10, 5, 50, 15), "Test");
    dlg.add(Control::Label(Label::new(Rect::new(1, 1, 10, 2), "text")));
    dlg.add(button(2, 42, true));
    let mut ctx = Context::new();
    ctx.commands.disable_command(42);
    let mut b = Event::broadcast(turbo_vision::command::CM_COMMAND_SET_CHANGED);
    dlg.handle_event(&mut b, &mut ctx);
    assert_eq!(dlg.find_default_button_command(), None);
    let mut e = Event::keyboard(KB_ENTER);
    dlg.handle_event(&mut e, &mut ctx);
    assert_eq!(e.what, EventType::Nothing);
}

#[test]
fn dialog_modal_run_restores_state() {
    let mut dlg = Dialog::new(Rect::new(10, 5, 50, 15), "Test");
    dlg.add(button(2, 42, true));
    dlg.set_initial_focus();
    let before = dlg.state();
    let saved = dlg.begin_execute();
    assert_ne!(dlg.state() & SF_MODAL, 0);
    let mut ctx = Context::new();
    let mut e = Event::keyboard(KB_ESC_ESC);
    assert_eq!(dlg.execute_event(&mut e, &mut ctx), Some(CM_CANCEL));
    let mut e = Event::command(turbo_vision::command::CM_CLOSE);
    assert_eq!(dlg.execute_event(&mut e, &mut ctx), Some(CM_CANCEL));
    let mut e = Event::keyboard(KB_ENTER);
    assert_eq!(dlg.execute_event(&mut e, &mut ctx), Some(42));
    assert_eq!(dlg.end_execute(saved), 42);
    assert_eq!(dlg.state(), before);
}

#[test]
fn input_line_editing() {
    let mut line = InputLine::new(Rect::new(0, 0, 10, 1), 5, "ab");
    line.set_focused(true);
    let mut ctx = Context::new();
    let mut e = Event::keyboard('c' as u16);
    line.handle_event(&mut e, &mut ctx);
    assert_eq!(e.what, EventType::Nothing);
    assert_eq!(line.get_text(), "abc");
    let mut e = Event::keyboard(turbo_vision::event::KB_BACKSPACE);
    line.handle_event(&mut e, &mut ctx);
    assert_eq!(line.get_text(), "ab");
    line.select_all();
    assert_eq!(line.get_selection(), Some("ab".to_string()));
    let mut e = Event::keyboard(turbo_vision::input_line::KB_CTRL_X);
    line.handle_event(&mut e, &mut ctx);
    assert_eq!(line.get_text(), "");
    assert_eq!(ctx.clipboard.text, "ab");
    for _ in 0..3 {
        let mut e = Event::keyboard(turbo_vision::input_line::KB_CTRL_V);
        line.handle_event(&mut e, &mut ctx);
    }
    assert_eq!(line.get_text(), "ababa");
}

#[test]
fn status_line_key_becomes_command() {
    let mut s = StatusLine::new(Rect::new(0, 24, 80, 25), vec![StatusItem::new("~Alt-X~ Exit", turbo_vision::event::KB_ALT_X, CM_QUIT)]);
    let mut e = Event::keyboard(turbo_vision::event::KB_ALT_X);
    s.handle_event(&mut e);
    assert_eq!(e, Event::command(CM_QUIT));
    let mut e = Event::keyboard(KB_ENTER);
    s.handle_event(&mut e);
    assert_eq!(e, Event::keyboard(KB_ENTER));
}

#[test]
fn menu_keyboard_navigation() {
    let mut file = SubMenu::new("~F~ile");
    file.add_item(MenuItem::new_disabled("~N~ew", 30, 0));
    file.add_item(MenuItem::separator());
    file.add_item(MenuItem::new_with_shortcut("E~x~it", CM_QUIT, 0, "Alt+X"));
    let mut bar = MenuBar::new(Rect::new(0, 0, 80, 1));
    bar.add_menu(file);
    let mut e = Event::keyboard(KB_ALT_F);
    bar.handle_event(&mut e);
    assert_eq!(e.what, EventType::Nothing);
    assert_eq!(bar.active_menu, Some(0));
    assert_eq!(bar.selected_item, 2);
    let mut e = Event::keyboard(KB_ENTER);
    bar.handle_event(&mut e);
    assert_eq!(e, Event::command(CM_QUIT));
    assert_eq!(bar.active_menu, None);
    assert_eq!(MenuItem::new("E~x~it", 1, 0).get_accelerator(), Some('x'));
    assert!(!MenuItem::separator().is_selectable());
}

#[test]
fn application_quit_keys_stop_running() {
    let mut app = Application::new(80, 25);
    app.start();
    let mut e = Event::keyboard(turbo_vision::event::KB_ALT_X);
    app.handle_event(&mut e);
    assert!(!app.running);
    assert_eq!(e, Event::command(CM_QUIT));
    let runs = app.frame();
    assert!(!runs.is_empty());
}

#[test]
fn dump_text_is_exact() {
    let a = Attr::new(TvColor::White, TvColor::Blue);
    let b = Attr::new(TvColor::Yellow, TvColor::Blue);
    let buffer = vec![vec![Cell::new('H', a), Cell::new('i', a), Cell::new('!', b)]];
    assert_eq!(dump_buffer(&buffer, 3, 1), "\x1b[97;44mHi\x1b[93m!\x1b[0m\n");
    assert_eq!(dump_buffer_region(&buffer, 1, 0, 1, 5), "\x1b[97;44mi\x1b[0m\n");
    assert_eq!(color_to_ansi_fg(TvColor::Brown), 33);
    assert_eq!(color_to_ansi_bg(TvColor::DarkGray), 100);
}

#[test]
fn draw_buffer_shortcut_text() {
    let n = Attr::new(TvColor::Black, TvColor::LightGray);
    let h = Attr::new(TvColor::Red, TvColor::LightGray);
    let mut buf = DrawBuffer::new(6);
    let written = buf.move_str_with_shortcut(1, "~F~ile", n, h);
    assert_eq!(written, 4);
    assert_eq!(buf.data[1], Cell::new('F', h));
    assert_eq!(buf.data[2], Cell::new('i', n));
    assert_eq!(buf.data[4], Cell::new('e', n));
}

#[test]
fn message_and_input_box_layouts() {
    let d = message_box_dialog(Rect::new(10, 5, 50, 14), "Sure?", MF_OK_CANCEL);
    assert_eq!(d.child_count(), 3);
    assert_eq!(d.find_default_button_command(), Some(turbo_vision::command::CM_OK));
    let d = input_box_dialog(Rect::new(10, 5, 50, 12), "Name", "Name:", "bob", 10);
    assert_eq!(d.child_count(), 4);
    match d.child_at(1) {
        Control::InputLine(i) => assert_eq!(i.get_text(), "bob"),
        _ => panic!("input line expected"),
    }
}

#[test]
fn command_set_starts_enabled() {
    let mut c = CommandSet::new();
    assert!(c.is_enabled(9));
    assert!(!c.command_set_changed());
    c.disable_command(9);
    assert!(!c.is_enabled(9));
    assert!(c.command_set_changed());
    c.clear_command_set_changed();
    assert!(!c.command_set_changed());
}

#[test]
fn close_box_press_becomes_close_command() {
    let w = Window::new(Rect::new(10, 5, 40, 15), "w");
    let mut e = Event::mouse(EventType::MouseDown, Point::new(13, 5), MB_LEFT_BUTTON, false);
    w.frame_event(&mut e);
    assert_eq!(e, Event::command(turbo_vision::command::CM_CLOSE));
    let mut e = Event::mouse(EventType::MouseDown, Point::new(20, 5), MB_LEFT_BUTTON, false);
    w.frame_event(&mut e);
    assert_eq!(e.what, EventType::MouseDown);
}

#[test]
fn file_dialog_wildcards_and_entries() {
    let fd = FileDialog::new(Rect::new(0, 0, 60, 20), "Open", "*.rs", "/tmp");
    assert!(fd.matches_wildcard("main.rs"));
    assert!(!fd.matches_wildcard("main.rso"));
    assert!(!fd.matches_wildcard("rs"));
    let any = FileDialog::new(Rect::new(0, 0, 60, 20), "Open", "*", "/tmp");
    assert!(any.matches_wildcard("whatever"));
    let part = FileDialog::new(Rect::new(0, 0, 60, 20), "Open", "log", "/tmp");
    assert!(part.matches_wildcard("syslog.1"));
    assert!(!part.matches_wildcard("lo"));
    assert_eq!(fd.handle_selection(".."), Selection::Parent);
    assert_eq!(fd.handle_selection("[src]"), Selection::Directory("src".to_string()));
    assert_eq!(fd.handle_selection("a.rs"), Selection::File("a.rs".to_string()));
    let mut fd = fd.build(vec!["..".to_string(), "[src]".to_string(), "a.rs".to_string()]);
    assert_eq!(fd.dialog().child_count(), 7);
    fd.track_listbox_events(&Event::keyboard(turbo_vision::event::KB_DOWN));
    fd.track_listbox_events(&Event::keyboard(turbo_vision::event::KB_DOWN));
    fd.track_listbox_events(&Event::keyboard(turbo_vision::event::KB_DOWN));
    assert_eq!(fd.selected_file_index(), 2);
    assert_eq!(fd.selected_entry(), Some("a.rs".to_string()));
    fd.track_listbox_events(&Event::keyboard(turbo_vision::event::KB_HOME));
    assert_eq!(fd.selected_file_index(), 0);
    assert_eq!(fd.get_selected_file(), None);
}

#[test]
fn pending_runs_then_commit() {
    let mut t = Terminal::new(6, 2);
    let a = Attr::new(TvColor::Green, TvColor::Black);
    t.write_cell(1, 0, Cell::new('q', a));
    let runs = t.pending_runs();
    assert_eq!(runs.len(), 1);
    assert_eq!(t.pending_runs().len(), 1);
    assert_eq!(t.shown_cell_at(1, 0).unwrap().ch, ' ');
    t.commit();
    assert_eq!(t.shown_cell_at(1, 0), Some(Cell::new('q', a)));
    assert!(t.pending_runs().is_empty());
}

#[test]
fn application_layout_and_key_dispatch() {
    let mut app = Application::new(80, 25);
    assert_eq!(app.desktop.bounds(), Rect::new(0, 1, 80, 24));
    assert_eq!(app.desktop.child_count(), 0);
    app.start();
    app.dispatch_key(KeyInput::Esc);
    assert!(app.running);
    assert!(app.decoder.is_pending());
    app.dispatch_key(KeyInput::Char('x'));
    assert!(!app.running);
    assert!(!app.decoder.is_pending());
}

#[test]
fn menu_titles_are_laid_out_in_order() {
    let mut bar = MenuBar::new(Rect::new(0, 0, 80, 1));
    bar.add_menu(SubMenu::new("~F~ile"));
    bar.add_menu(SubMenu::new("~E~dit"));
    let mut t = Terminal::new(80, 25);
    bar.draw(&mut t);
    assert_eq!(bar.menu_positions, vec![1, 7]);
    assert_eq!(t.cell_at(2, 0).unwrap().ch, 'F');
}

#[test]
fn group_moves_children_with_it() {
    let mut g: Group<Control> = Group::new(Rect::new(10, 10, 30, 30));
    g.add(Control::Label(Label::new(Rect::new(1, 1, 5, 2), "x")));
    g.move_to(Rect::new(20, 5, 40, 25));
    assert_eq!(g.child_at(0).bounds(), Rect::new(21, 6, 25, 7));
}
