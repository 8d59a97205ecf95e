//! A text-mode user interface toolkit: a character-cell screen buffer with a
//! minimal-diff renderer and clipping, an input decoder that resolves escape
//! sequences, a tree of views with focus and modality rules, and a command
//! enablement set whose changes are broadcast to every view.

pub mod geometry;
pub mod palette;
pub mod draw;
pub mod terminal;
pub mod command;
pub mod event;
pub mod clipboard;
pub mod view;
pub mod group;
pub mod button;
pub mod checkbox;
pub mod label;
pub mod listbox;
pub mod input_line;
pub mod control;
pub mod window;
pub mod desktop;
pub mod status_line;
pub mod menu_bar;
pub mod application;
pub mod ansi_dump;
pub mod msgbox;
pub mod file_dialog;
