//! The decisions of the file-open dialog: which names the wildcard admits,
//! which list entry the keys and clicks select, and what choosing an entry means.
use vstd::prelude::*;
use crate::button::Button;
use crate::command::{CommandId, CM_CANCEL, CM_OK};
use crate::control::Control;
use crate::event::{Event, EventType, KB_DOWN, KB_END, KB_HOME, KB_PGDN, KB_PGUP, KB_UP};
use crate::geometry::{Rect, clamp_i16};
use crate::input_line::{InputLine, chars_of, string_from_chars};
use crate::label::Label;
use crate::listbox::ListBox;
use crate::view::Widget;
use crate::window::Dialog;

verus! {

/// The command that the file list sends when an entry is chosen.
pub const CMD_FILE_SELECTED: CommandId = 1000;

/// The number of entries that Page Up and Page Down move.
pub const FILE_PAGE: usize = 10;

/// Whether `t` occurs in `s` at `i`.
pub open spec fn occurs_at(s: Seq<char>, t: Seq<char>, i: int) -> bool {
    0 <= i && i + t.len() <= s.len() && s.subrange(i, i + t.len()) == t
}

/// Whether a file name passes a wildcard: `*` and the empty wildcard pass
/// every name, `*.ext` the names ending in `.ext`, and any other wildcard the
/// names that contain it.
pub open spec fn wildcard_admits(w: Seq<char>, name: Seq<char>) -> bool {
    if w == seq!['*'] || w.len() == 0 {
        true
    } else if w.len() >= 2 && w[0] == '*' && w[1] == '.' {
        occurs_at(name, w.skip(1), name.len() - (w.len() - 1))
    } else {
        exists|i: int| occurs_at(name, w, i)
    }
}

/// What choosing a list entry means.
#[derive(Debug, PartialEq, Eq)]
pub enum Selection {
    /// `..`: go to the parent directory.
    Parent,
    /// `[name]`: enter the directory `name`.
    Directory(String),
    /// Any other entry: the file of that name.
    File(String),
}

fn seq_equal_at(s: &Vec<char>, t: &Vec<char>, i: usize) -> (r: bool)
    ensures
        r == occurs_at(s@, t@, i as int),
{
    if i > s.len() || t.len() > s.len() - i {
        return false;
    }
    let mut k: usize = 0;
    while k < t.len()
        invariant
            i + t@.len() <= s@.len(),
            s@.len() <= usize::MAX,
            k <= t@.len(),
            forall|j: int| 0 <= j < k ==> s@[i + j] == t@[j],
        decreases t@.len() - k,
    {
        assert(i + k < s@.len());
        if s[i + k] != t[k] {
            assert(s@.subrange(i as int, i + t@.len())[k as int] != t@[k as int]);
            return false;
        }
        k = k + 1;
    }
    assert(s@.subrange(i as int, i + t@.len()) =~= t@);
    true
}

pub struct FileDialog {
    dialog: Dialog,
    current_path: String,
    wildcard: String,
    files: Vec<String>,
    selected_file_index: usize,
}

impl FileDialog {
    pub closed spec fn spec_wildcard(&self) -> Seq<char> {
        self.wildcard@
    }

    pub closed spec fn spec_files(&self) -> Seq<String> {
        self.files@
    }

    pub closed spec fn spec_index(&self) -> int {
        self.selected_file_index as int
    }

    pub closed spec fn spec_dialog(&self) -> Dialog {
        self.dialog
    }

    pub open spec fn wf(&self) -> bool {
        self.spec_dialog().wf()
    }

    /// A dialog on the directory `dir`, listing the names that `wildcard` admits.
    pub fn new(bounds: Rect, title: &str, wildcard: &str, dir: &str) -> (r: FileDialog)
        ensures
            r.wf(),
            r.spec_wildcard() == wildcard@,
            r.spec_path() == dir@,
            r.spec_files().len() == 0,
            r.spec_index() == 0,
    {
        FileDialog {
            dialog: Dialog::new(bounds, title),
            current_path: dir.to_string(),
            wildcard: wildcard.to_string(),
            files: Vec::new(),
            selected_file_index: 0,
        }
    }

    /// Adds the controls: the name field, the directory, the list of `files`
    /// (directories first, as `[name]`, then the names that passed the
    /// wildcard), and the Open and Cancel buttons.
    pub fn build(self, files: Vec<String>) -> (r: FileDialog)
        requires
            self.wf(),
        ensures
            r.wf(),
            r.spec_files() == files@,
            r.spec_dialog().kids().len() == self.spec_dialog().kids().len() + 7,
    {
        let mut s = self;
        let b = s.dialog.bounds();
        let w = b.width();
        let h = b.height();
        s.dialog.add(Control::Label(Label::new(Rect::new(2, 1, 12, 2), "~N~ame:")));
        s.dialog.add(Control::InputLine(InputLine::new(Rect::new(12, 1, clamp_i16(w - 4), 2), 255, "")));
        s.dialog.add(Control::Label(Label::new(Rect::new(2, 3, clamp_i16(w - 4), 4), s.current_path.as_str())));
        s.dialog.add(Control::Label(Label::new(Rect::new(2, 5, 12, 6), "~F~iles:")));
        let mut list = ListBox::new(Rect::new(2, 6, clamp_i16(w - 4), clamp_i16(h - 6)), CMD_FILE_SELECTED);
        let mut copy: Vec<String> = Vec::new();
        let mut i: usize = 0;
        while i < files.len()
            invariant
                i <= files@.len(),
                copy@.len() == i,
            decreases files@.len() - i,
        {
            copy.push(files[i].clone());
            i = i + 1;
        }
        list.set_items(copy);
        s.dialog.add(Control::ListBox(list));
        let by = clamp_i16(h - 4);
        let by2 = clamp_i16(h - 2);
        s.dialog.add(Control::Button(Button::new(Rect::new(2, by, 14, by2), "  ~O~pen  ", CM_OK, true)));
        s.dialog.add(Control::Button(Button::new(Rect::new(16, by, 28, by2), " ~C~ancel ", CM_CANCEL, false)));
        s.dialog.set_initial_focus();
        s.files = files;
        s.selected_file_index = 0;
        s
    }

    pub fn dialog(&self) -> (r: &Dialog)
        ensures
            *r == self.spec_dialog(),
    {
        &self.dialog
    }

    pub fn dialog_mut(&mut self) -> (r: &mut Dialog)
        ensures
            *r == old(self).spec_dialog(),
    {
        &mut self.dialog
    }

    pub closed spec fn spec_path(&self) -> Seq<char> {
        self.current_path@
    }

    /// The directory shown.
    pub fn current_path(&self) -> (r: &str)
        ensures
            r@ == self.spec_path(),
    {
        self.current_path.as_str()
    }

    pub fn wildcard(&self) -> (r: &str)
        ensures
            r@ == self.spec_wildcard(),
    {
        self.wildcard.as_str()
    }

    /// The list entry that the dialog last saw selected.
    pub fn selected_file_index(&self) -> (r: usize)
        ensures
            r == self.spec_index(),
    {
        self.selected_file_index
    }

    /// Whether the wildcard admits `name`.
    pub fn matches_wildcard(&self, name: &str) -> (r: bool)
        ensures
            r == wildcard_admits(self.spec_wildcard(), name@),
    {
        let w = chars_of(self.wildcard.as_str());
        let s = chars_of(name);
        if w.len() == 0 || (w.len() == 1 && w[0] == '*') {
            assert(w@.len() == 1 ==> w@ =~= seq!['*']);
            return true;
        }
        assert(w@ != seq!['*']);
        if w.len() >= 2 && w[0] == '*' && w[1] == '.' {
            let mut ext: Vec<char> = Vec::new();
            let mut k: usize = 1;
            while k < w.len()
                invariant
                    1 <= k <= w@.len(),
                    ext@ == w@.subrange(1, k as int),
                decreases w@.len() - k,
            {
                ext.push(w[k]);
                assert(w@.subrange(1, k + 1) =~= w@.subrange(1, k as int).push(w@[k as int]));
                k = k + 1;
            }
            assert(ext@ =~= w@.skip(1));
            if s.len() < ext.len() {
                return false;
            }
            return seq_equal_at(&s, &ext, s.len() - ext.len());
        }
        let mut i: usize = 0;
        while i < s.len()
            invariant
                i <= s@.len(),
                w@.len() > 0,
                s@ == name@,
                w@ == self.spec_wildcard(),
                w@ != seq!['*'],
                !(w@.len() >= 2 && w@[0] == '*' && w@[1] == '.'),
                forall|j: int| 0 <= j < i ==> !occurs_at(s@, w@, j),
            decreases s@.len() - i,
        {
            if seq_equal_at(&s, &w, i) {
                assert(occurs_at(s@, w@, i as int));
                assert(wildcard_admits(w@, s@));
                return true;
            }
            i = i + 1;
        }
        assert forall|j: int| !occurs_at(s@, w@, j) by {
            if 0 <= j && j < i {
            }
        }
        false
    }

    /// Follows the list's selection from the keys and clicks that move it, as
    /// the list itself will: up, down, Home, End and the page keys, and a press
    /// on a row of the list.
    pub fn track_listbox_events(&mut self, event: &Event)
        ensures
            final(self).spec_files() == old(self).spec_files(),
            final(self).spec_dialog() == old(self).spec_dialog(),
            final(self).spec_wildcard() == old(self).spec_wildcard(),
            event.what == EventType::Keyboard && event.key_code == KB_HOME ==> final(self).spec_index() == 0,
            event.what == EventType::Keyboard && event.key_code == KB_UP ==> final(self).spec_index()
                == if old(self).spec_index() > 0 { old(self).spec_index() - 1 } else { 0 },
            event.what == EventType::Keyboard && event.key_code == KB_DOWN ==> final(self).spec_index()
                == if old(self).spec_index() + 1 < old(self).spec_files().len() { old(self).spec_index() + 1 } else { old(self).spec_index() },
            event.what == EventType::Keyboard && event.key_code == KB_END && old(self).spec_files().len() > 0
                ==> final(self).spec_index() == old(self).spec_files().len() - 1,
            event.what != EventType::Keyboard && event.what != EventType::MouseDown ==> final(self).spec_index() == old(self).spec_index(),
    {
        let n = self.files.len();
        if event.what == EventType::Keyboard {
            let k = event.key_code;
            if k == KB_UP {
                if self.selected_file_index > 0 {
                    self.selected_file_index = self.selected_file_index - 1;
                }
            } else if k == KB_DOWN {
                if self.selected_file_index < n && n - self.selected_file_index > 1 {
                    self.selected_file_index = self.selected_file_index + 1;
                }
            } else if k == KB_HOME {
                self.selected_file_index = 0;
            } else if k == KB_END {
                if n > 0 {
                    self.selected_file_index = n - 1;
                }
            } else if k == KB_PGUP {
                self.selected_file_index = if self.selected_file_index >= FILE_PAGE { self.selected_file_index - FILE_PAGE } else { 0 };
            } else if k == KB_PGDN {
                if n > 0 {
                    self.selected_file_index = if self.selected_file_index < n - 1 && n - 1 - self.selected_file_index > FILE_PAGE {
                        self.selected_file_index + FILE_PAGE
                    } else {
                        n - 1
                    };
                }
            }
        } else if event.what == EventType::MouseDown {
            let b = self.dialog.bounds();
            let p = event.mouse.pos;
            let y0 = b.a.y as i32 + 6;
            let y1 = b.b.y as i32 - 6;
            let x0 = b.a.x as i32 + 2;
            let x1 = b.b.x as i32 - 4;
            let px = p.x as i32;
            let py = p.y as i32;
            if px >= x0 && px < x1 && py >= y0 && py < y1 {
                let rel = (py - y0) as usize;
                if rel < n {
                    self.selected_file_index = rel;
                }
            }
        }
    }

    /// What choosing the entry `name` means: `..` the parent, `[dir]` a
    /// directory, anything else a file.
    pub fn handle_selection(&self, name: &str) -> (r: Selection)
        ensures
            name@ == seq!['.', '.'] ==> r == Selection::Parent,
            name@ != seq!['.', '.'] && name@.len() >= 2 && name@[0] == '[' && name@.last() == ']' ==> (r matches Selection::Directory(d)
                && d@ == name@.subrange(1, name@.len() - 1)),
            name@ != seq!['.', '.'] && !(name@.len() >= 2 && name@[0] == '[' && name@.last() == ']') ==> (r matches Selection::File(f)
                && f@ == name@),
    {
        let s = chars_of(name);
        let n = s.len();
        if n == 2 && s[0] == '.' && s[1] == '.' {
            assert(s@ =~= seq!['.', '.']);
            return Selection::Parent;
        }
        if n >= 2 && s[0] == '[' && s[n - 1] == ']' {
            let mut inner: Vec<char> = Vec::new();
            let mut k: usize = 1;
            while k < n - 1
                invariant
                    n == s@.len(),
                    n >= 2,
                    1 <= k <= n - 1,
                    inner@ == s@.subrange(1, k as int),
                decreases n - 1 - k,
            {
                inner.push(s[k]);
                assert(s@.subrange(1, k + 1) =~= s@.subrange(1, k as int).push(s@[k as int]));
                k = k + 1;
            }
            return Selection::Directory(string_from_chars(&inner));
        }
        Selection::File(name.to_string())
    }

    /// The name typed in the name field, if the field is not empty.
    pub fn get_selected_file(&self) -> (r: Option<String>)
        ensures
            r.is_some() ==> r.unwrap()@.len() > 0,
            r.is_some() ==> exists|i: InputLine| self.spec_dialog().kids()[1] == Control::InputLine(i) && i.data@ == r.unwrap()@,
            r.is_none() ==> self.spec_dialog().kids().len() <= 1 || !(self.spec_dialog().kids()[1] is InputLine)
                || (self.spec_dialog().kids()[1] matches Control::InputLine(i) && i.data@.len() == 0),
    {
        if self.dialog.child_count() > 1 {
            match self.dialog.child_at(1) {
                Control::InputLine(i) => {
                    let t = i.get_text();
                    if t.unicode_len() > 0 {
                        return Some(t);
                    }
                },
                _ => {},
            }
        }
        None
    }

    /// The list entry at the tracked index, if there is one.
    pub fn selected_entry(&self) -> (r: Option<String>)
        ensures
            r.is_some() == (self.spec_index() < self.spec_files().len()),
            r.is_some() ==> r.unwrap()@ == self.spec_files()[self.spec_index()]@,
    {
        if self.selected_file_index < self.files.len() {
            Some(self.files[self.selected_file_index].clone())
        } else {
            None
        }
    }
}

} // verus!
