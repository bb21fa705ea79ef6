//! The two built-in themes.

use vstd::prelude::*;

verus! {

/// The color theme of the whole application.
#[derive(Debug, Clone, Copy, PartialEq, Eq, Structural)]
pub enum Theme {
    Dark,
    Light,
}

impl Default for Theme {
    fn default() -> (r: Self)
        ensures
            r == Theme::Dark,
    {
        Theme::Dark
    }
}

impl Theme {
    /// Whether this theme draws light text on a dark background.
    pub fn is_dark(&self) -> (r: bool)
        ensures
            r == (*self == Theme::Dark),
    {
        matches!(self, Theme::Dark)
    }
}

} // verus!
