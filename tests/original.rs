use turbo_vision::ansi_dump::dump_buffer;
use turbo_vision::checkbox::{CheckBox, RadioButton};
use turbo_vision::control::Control;
use turbo_vision::draw::Cell;
use turbo_vision::geometry::Rect;
use turbo_vision::group::Group;
use turbo_vision::label::{Background, Label};
use turbo_vision::listbox::ListBox;
use turbo_vision::palette::{Attr, TvColor};
use turbo_vision::clipboard::{clear_clipboard, get_clipboard, has_clipboard_content, set_clipboard, Clipboard};
use turbo_vision::view::Widget;

#[test]
fn test_dump_simple_buffer() {
    let cells = vec![
        Cell::new('H', Attr::new(TvColor::White, TvColor::Blue)),
        Cell::new('i', Attr::new(TvColor::White, TvColor::Blue)),
    ];
    let buffer = vec![cells];
    let result = dump_buffer(&buffer, 2, 1);
    assert!(result.contains("Hi"));
    assert!(result.contains("\x1b["));
}

#[test]
fn test_clipboard_operations() {
    let mut clipboard = Clipboard::new();
    clear_clipboard(&mut clipboard);
    assert!(!has_clipboard_content(&clipboard));

    set_clipboard(&mut clipboard, "Hello, World!");
    assert!(has_clipboard_content(&clipboard));
    assert_eq!(get_clipboard(&clipboard), "Hello, World!");

    set_clipboard(&mut clipboard, "New content");
    assert_eq!(get_clipboard(&clipboard), "New content");

    clear_clipboard(&mut clipboard);
    assert!(!has_clipboard_content(&clipboard));
    assert_eq!(get_clipboard(&clipboard), "");
}

#[test]
fn test_background_creation() {
    let bg = Background::new(Rect::new(0, 0, 80, 25));
    assert_eq!(bg.get_pattern(), '░');
    assert_eq!(bg.bounds(), Rect::new(0, 0, 80, 25));
}

#[test]
fn test_background_custom_pattern() {
    let bg = Background::with_pattern(Rect::new(0, 0, 80, 25), '*');
    assert_eq!(bg.get_pattern(), '*');
}

#[test]
fn test_background_set_pattern() {
    let mut bg = Background::new(Rect::new(0, 0, 80, 25));
    assert_eq!(bg.get_pattern(), '░');
    bg.set_pattern('▒');
    assert_eq!(bg.get_pattern(), '▒');
}

#[test]
fn test_background_predefined_patterns() {
    let bg_light = Background::checkered_light(Rect::new(0, 0, 80, 25));
    assert_eq!(bg_light.get_pattern(), '░');
    let bg_medium = Background::checkered_medium(Rect::new(0, 0, 80, 25));
    assert_eq!(bg_medium.get_pattern(), '▒');
    let bg_dark = Background::checkered_dark(Rect::new(0, 0, 80, 25));
    assert_eq!(bg_dark.get_pattern(), '▓');
    let bg_solid = Background::solid(Rect::new(0, 0, 80, 25));
    assert_eq!(bg_solid.get_pattern(), '█');
    let bg_dots = Background::dots(Rect::new(0, 0, 80, 25));
    assert_eq!(bg_dots.get_pattern(), '·');
    let bg_cross = Background::cross(Rect::new(0, 0, 80, 25));
    assert_eq!(bg_cross.get_pattern(), '┼');
    let bg_blank = Background::blank(Rect::new(0, 0, 80, 25));
    assert_eq!(bg_blank.get_pattern(), ' ');
}

#[test]
fn test_background_set_bounds() {
    let mut bg = Background::new(Rect::new(0, 0, 80, 25));
    assert_eq!(bg.bounds(), Rect::new(0, 0, 80, 25));
    bg.set_bounds(Rect::new(10, 10, 90, 35));
    assert_eq!(bg.bounds(), Rect::new(10, 10, 90, 35));
}

#[test]
fn test_checkbox_creation() {
    let checkbox = CheckBox::new(Rect::new(0, 0, 20, 1), "Test option");
    assert!(!checkbox.is_checked());
    assert_eq!(checkbox.label(), "Test option");
}

#[test]
fn test_checkbox_toggle() {
    let mut checkbox = CheckBox::new(Rect::new(0, 0, 20, 1), "Test");
    assert!(!checkbox.is_checked());
    checkbox.toggle();
    assert!(checkbox.is_checked());
    checkbox.toggle();
    assert!(!checkbox.is_checked());
}

#[test]
fn test_checkbox_set_checked() {
    let mut checkbox = CheckBox::new(Rect::new(0, 0, 20, 1), "Test");
    checkbox.set_checked(true);
    assert!(checkbox.is_checked());
    checkbox.set_checked(false);
    assert!(!checkbox.is_checked());
}

fn probe(bounds: Rect) -> Control {
    Control::Label(Label::new(bounds, "probe"))
}

#[test]
fn test_child_completely_outside_parent_not_drawn() {
    let group: Group<Control> = Group::new(Rect::new(10, 10, 30, 30));
    let child_bounds = Rect::new(100, 15, 110, 20);
    assert!(!group.bounds().intersects(&child_bounds));
}

#[test]
fn test_child_inside_parent_is_drawn() {
    let mut group: Group<Control> = Group::new(Rect::new(10, 10, 30, 30));
    group.add(probe(Rect::new(5, 5, 15, 15)));
    assert_eq!(group.len(), 1);
    assert_eq!(group.child_at(0).bounds(), Rect::new(15, 15, 25, 25));
    assert!(group.bounds().intersects(&group.child_at(0).bounds()));
}

#[test]
fn test_child_partially_outside_parent() {
    let mut group: Group<Control> = Group::new(Rect::new(10, 10, 30, 30));
    group.add(probe(Rect::new(15, 15, 25, 25)));
    assert_eq!(group.child_at(0).bounds(), Rect::new(25, 25, 35, 35));
    assert!(group.bounds().intersects(&group.child_at(0).bounds()));
}

#[test]
fn test_coordinate_conversion_on_add() {
    let mut group: Group<Control> = Group::new(Rect::new(20, 30, 60, 80));
    group.add(probe(Rect::new(5, 10, 15, 20)));
    assert_eq!(group.child_at(0).bounds(), Rect::new(25, 40, 35, 50));
}

#[test]
fn test_multiple_children_clipping() {
    let mut group: Group<Control> = Group::new(Rect::new(0, 0, 50, 50));
    group.add(probe(Rect::new(10, 10, 20, 20)));
    group.add(probe(Rect::new(100, 100, 110, 110)));
    group.add(probe(Rect::new(40, 40, 60, 60)));
    assert_eq!(group.len(), 3);
    assert!(group.bounds().intersects(&group.child_at(0).bounds()));
    assert!(!group.bounds().intersects(&group.child_at(1).bounds()));
    assert!(group.bounds().intersects(&group.child_at(2).bounds()));
}

#[test]
fn test_listbox_creation() {
    let listbox = ListBox::new(Rect::new(0, 0, 20, 10), 1000);
    assert_eq!(listbox.item_count(), 0);
    assert_eq!(listbox.get_selection(), None);
}

#[test]
fn test_listbox_add_items() {
    let mut listbox = ListBox::new(Rect::new(0, 0, 20, 10), 1000);
    listbox.add_item("Item 1".to_string());
    listbox.add_item("Item 2".to_string());
    listbox.add_item("Item 3".to_string());
    assert_eq!(listbox.item_count(), 3);
    assert_eq!(listbox.get_selection(), Some(0));
    assert_eq!(listbox.get_selected_item(), Some("Item 1"));
}

#[test]
fn test_listbox_set_items() {
    let mut listbox = ListBox::new(Rect::new(0, 0, 20, 10), 1000);
    let items = vec!["Alpha".to_string(), "Beta".to_string(), "Gamma".to_string()];
    listbox.set_items(items);
    assert_eq!(listbox.item_count(), 3);
    assert_eq!(listbox.get_selection(), Some(0));
}

#[test]
fn test_listbox_navigation() {
    let mut listbox = ListBox::new(Rect::new(0, 0, 20, 10), 1000);
    listbox.set_items(vec!["Item 1".to_string(), "Item 2".to_string(), "Item 3".to_string()]);
    assert_eq!(listbox.get_selection(), Some(0));
    listbox.select_next();
    assert_eq!(listbox.get_selection(), Some(1));
    listbox.select_next();
    assert_eq!(listbox.get_selection(), Some(2));
    listbox.select_next();
    assert_eq!(listbox.get_selection(), Some(2));
    listbox.select_prev();
    assert_eq!(listbox.get_selection(), Some(1));
    listbox.select_first();
    assert_eq!(listbox.get_selection(), Some(0));
    listbox.select_last();
    assert_eq!(listbox.get_selection(), Some(2));
}

#[test]
fn test_listbox_set_selection() {
    let mut listbox = ListBox::new(Rect::new(0, 0, 20, 10), 1000);
    listbox.set_items(vec!["A".to_string(), "B".to_string(), "C".to_string(), "D".to_string()]);
    listbox.set_selection(2);
    assert_eq!(listbox.get_selection(), Some(2));
    assert_eq!(listbox.get_selected_item(), Some("C"));
    listbox.set_selection(10);
    assert_eq!(listbox.get_selection(), Some(2));
}

#[test]
fn test_listbox_clear() {
    let mut listbox = ListBox::new(Rect::new(0, 0, 20, 10), 1000);
    listbox.set_items(vec!["Item 1".to_string(), "Item 2".to_string()]);
    assert_eq!(listbox.item_count(), 2);
    listbox.clear();
    assert_eq!(listbox.item_count(), 0);
    assert_eq!(listbox.get_selection(), None);
}

#[test]
fn test_radiobutton_creation() {
    let radio = RadioButton::new(Rect::new(0, 0, 20, 1), "Option 1", 1);
    assert!(!radio.is_selected());
    assert_eq!(radio.label(), "Option 1");
    assert_eq!(radio.group_id(), 1);
}

#[test]
fn test_radiobutton_select() {
    let mut radio = RadioButton::new(Rect::new(0, 0, 20, 1), "Option 1", 1);
    assert!(!radio.is_selected());
    radio.select();
    assert!(radio.is_selected());
    radio.deselect();
    assert!(!radio.is_selected());
}

#[test]
fn test_radiobutton_set_selected() {
    let mut radio = RadioButton::new(Rect::new(0, 0, 20, 1), "Option 1", 1);
    radio.set_selected(true);
    assert!(radio.is_selected());
    radio.set_selected(false);
    assert!(!radio.is_selected());
}

#[test]
fn test_radiobutton_group_id() {
    let radio1 = RadioButton::new(Rect::new(0, 0, 20, 1), "Option 1", 1);
    let radio2 = RadioButton::new(Rect::new(0, 1, 20, 2), "Option 2", 1);
    let radio3 = RadioButton::new(Rect::new(0, 2, 20, 3), "Option 3", 2);
    assert_eq!(radio1.group_id(), 1);
    assert_eq!(radio2.group_id(), 1);
    assert_eq!(radio3.group_id(), 2);
}
