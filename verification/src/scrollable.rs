//! Scroll direction options for scrollable regions.

use vstd::prelude::*;

verus! {

/// Which axes a scrollable region scrolls on.
#[derive(Debug, Clone, Copy, PartialEq, Eq, Structural)]
pub enum Direction {
    Vertical,
    Horizontal,
    Both,
}

impl Direction {
    /// Whether this direction scrolls vertically.
    pub fn scrolls_vertically(self) -> (r: bool)
        ensures
            r == (self == Direction::Vertical || self == Direction::Both),
    {
        matches!(self, Direction::Vertical | Direction::Both)
    }

    /// Whether this direction scrolls horizontally.
    pub fn scrolls_horizontally(self) -> (r: bool)
        ensures
            r == (self == Direction::Horizontal || self == Direction::Both),
    {
        matches!(self, Direction::Horizontal | Direction::Both)
    }
}

} // verus!
