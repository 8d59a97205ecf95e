//! The clipboard that cut, copy and paste share.
use vstd::prelude::*;

verus! {

/// The text that cut and copy store and paste reads.
pub struct Clipboard {
    pub text: String,
}

impl Clipboard {
    pub fn new() -> (r: Clipboard)
        ensures
            r.text@.len() == 0,
    {
        Clipboard { text: String::new() }
    }
}

/// Replaces the clipboard's content.
pub fn set_clipboard(clipboard: &mut Clipboard, text: &str)
    ensures
        final(clipboard).text@ == text@,
{
    clipboard.text = text.to_string();
}

/// The clipboard's content.
pub fn get_clipboard(clipboard: &Clipboard) -> (r: String)
    ensures
        r@ == clipboard.text@,
{
    clipboard.text.clone()
}

pub fn has_clipboard_content(clipboard: &Clipboard) -> (r: bool)
    ensures
        r == (clipboard.text@.len() > 0),
{
    clipboard.text.unicode_len() > 0
}

pub fn clear_clipboard(clipboard: &mut Clipboard)
    ensures
        final(clipboard).text@.len() == 0,
{
    clipboard.text = String::new();
}

} // verus!
