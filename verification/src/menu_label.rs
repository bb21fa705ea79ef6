//! Menu label component configuration: a non-interactive heading that
//! groups related menu items.

use vstd::prelude::*;
use vstd::string::StringExecFns;

verus! {

/// Configuration of a menu label.
#[derive(Debug, Clone)]
pub struct MenuLabel {
    pub content: String,
    pub uppercase: bool,
}

impl MenuLabel {
    /// Creates a new menu label with the given content.
    pub fn new(content: String) -> (r: Self)
        ensures
            r.content == content,
            !r.uppercase,
    {
        MenuLabel { content, uppercase: false }
    }

    /// Sets whether the label text is displayed in uppercase.
    pub fn uppercase(self, uppercase: bool) -> (r: Self)
        ensures
            r == (MenuLabel { uppercase, ..self }),
    {
        MenuLabel { uppercase, ..self }
    }
}

impl Default for MenuLabel {
    fn default() -> (r: Self)
        ensures
            r.content@.len() == 0,
            !r.uppercase,
    {
        proof {
            reveal_strlit("");
        }
        MenuLabel::new(String::from_str(""))
    }
}

/// Convenience function to create a menu label.
pub fn menu_label(content: String) -> (r: MenuLabel)
    ensures
        r.content == content,
        !r.uppercase,
{
    MenuLabel::new(content)
}

} // verus!
