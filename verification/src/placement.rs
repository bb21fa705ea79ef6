//! The twelve placement directions a floating element may take relative to
//! its anchor, and their decomposition into a side and an alignment.

use vstd::prelude::*;

verus! {

/// The side of the anchor the floating content sits on.
#[derive(Debug, Clone, Copy, PartialEq, Eq, Structural)]
pub enum Side {
    Top,
    Right,
    Bottom,
    Left,
}

/// How the floating content lines up with the anchor along the cross axis.
#[derive(Debug, Clone, Copy, PartialEq, Eq, Structural)]
pub enum Alignment {
    Start,
    Center,
    End,
}

/// Placement options for floating content relative to its anchor.
///
/// Twelve directions are supported:
/// - `Top`/`Bottom`/`Left`/`Right`: centered on the respective side
/// - `*Start`: aligned to the start of that side
/// - `*End`: aligned to the end of that side
#[derive(Debug, Clone, Copy, PartialEq, Eq, Structural)]
pub enum Placement {
    Top,
    TopStart,
    TopEnd,
    Right,
    RightStart,
    RightEnd,
    Bottom,
    BottomStart,
    BottomEnd,
    Left,
    LeftStart,
    LeftEnd,
}

impl Default for Placement {
    fn default() -> (r: Self)
        ensures
            r == Placement::Top,
    {
        Placement::Top
    }
}

impl Side {
    /// The mirrored side: top and bottom swap, left and right swap.
    pub open spec fn opposite_spec(self) -> Side {
        match self {
            Side::Top => Side::Bottom,
            Side::Bottom => Side::Top,
            Side::Left => Side::Right,
            Side::Right => Side::Left,
        }
    }

    /// Whether this side's primary axis is horizontal, so that its cross
    /// axis is vertical.
    pub open spec fn is_horizontal(self) -> bool {
        self == Side::Left || self == Side::Right
    }

    /// Whether this side's primary axis is horizontal.
    pub fn is_horizontal_side(self) -> (r: bool)
        ensures
            r == self.is_horizontal(),
    {
        matches!(self, Side::Left | Side::Right)
    }

    /// The mirrored side.
    pub fn opposite(self) -> (r: Side)
        ensures
            r == self.opposite_spec(),
    {
        match self {
            Side::Top => Side::Bottom,
            Side::Bottom => Side::Top,
            Side::Left => Side::Right,
            Side::Right => Side::Left,
        }
    }
}

impl Placement {
    /// The side component of this placement.
    pub open spec fn side_spec(self) -> Side {
        match self {
            Placement::Top | Placement::TopStart | Placement::TopEnd => Side::Top,
            Placement::Bottom | Placement::BottomStart | Placement::BottomEnd => Side::Bottom,
            Placement::Left | Placement::LeftStart | Placement::LeftEnd => Side::Left,
            Placement::Right | Placement::RightStart | Placement::RightEnd => Side::Right,
        }
    }

    /// The alignment component of this placement.
    pub open spec fn alignment_spec(self) -> Alignment {
        match self {
            Placement::Top | Placement::Bottom | Placement::Left | Placement::Right => {
                Alignment::Center
            },
            Placement::TopStart
            | Placement::BottomStart
            | Placement::LeftStart
            | Placement::RightStart => Alignment::Start,
            Placement::TopEnd
            | Placement::BottomEnd
            | Placement::LeftEnd
            | Placement::RightEnd => Alignment::End,
        }
    }

    /// The placement on the mirrored side, with the same alignment.
    pub open spec fn mirrored_spec(self) -> Placement {
        match self {
            Placement::Top => Placement::Bottom,
            Placement::TopStart => Placement::BottomStart,
            Placement::TopEnd => Placement::BottomEnd,
            Placement::Bottom => Placement::Top,
            Placement::BottomStart => Placement::TopStart,
            Placement::BottomEnd => Placement::TopEnd,
            Placement::Left => Placement::Right,
            Placement::LeftStart => Placement::RightStart,
            Placement::LeftEnd => Placement::RightEnd,
            Placement::Right => Placement::Left,
            Placement::RightStart => Placement::LeftStart,
            Placement::RightEnd => Placement::LeftEnd,
        }
    }

    /// The side component of this placement.
    pub fn side(self) -> (r: Side)
        ensures
            r == self.side_spec(),
    {
        match self {
            Placement::Top | Placement::TopStart | Placement::TopEnd => Side::Top,
            Placement::Bottom | Placement::BottomStart | Placement::BottomEnd => Side::Bottom,
            Placement::Left | Placement::LeftStart | Placement::LeftEnd => Side::Left,
            Placement::Right | Placement::RightStart | Placement::RightEnd => Side::Right,
        }
    }

    /// The alignment component of this placement.
    pub fn alignment(self) -> (r: Alignment)
        ensures
            r == self.alignment_spec(),
    {
        match self {
            Placement::Top | Placement::Bottom | Placement::Left | Placement::Right => {
                Alignment::Center
            },
            Placement::TopStart
            | Placement::BottomStart
            | Placement::LeftStart
            | Placement::RightStart => Alignment::Start,
            Placement::TopEnd
            | Placement::BottomEnd
            | Placement::LeftEnd
            | Placement::RightEnd => Alignment::End,
        }
    }

    /// The placement on the mirrored side, with the same alignment.
    pub fn mirrored(self) -> (r: Placement)
        ensures
            r == self.mirrored_spec(),
    {
        match self {
            Placement::Top => Placement::Bottom,
            Placement::TopStart => Placement::BottomStart,
            Placement::TopEnd => Placement::BottomEnd,
            Placement::Bottom => Placement::Top,
            Placement::BottomStart => Placement::TopStart,
            Placement::BottomEnd => Placement::TopEnd,
            Placement::Left => Placement::Right,
            Placement::LeftStart => Placement::RightStart,
            Placement::LeftEnd => Placement::RightEnd,
            Placement::Right => Placement::Left,
            Placement::RightStart => Placement::LeftStart,
            Placement::RightEnd => Placement::LeftEnd,
        }
    }
}

/// Mirroring swaps the side and keeps the alignment; the cross axis is
/// unchanged.
pub proof fn lemma_mirrored_decomposition(p: Placement)
    ensures
        p.mirrored_spec().side_spec() == p.side_spec().opposite_spec(),
        p.mirrored_spec().alignment_spec() == p.alignment_spec(),
        p.mirrored_spec().side_spec().is_horizontal() == p.side_spec().is_horizontal(),
{
}

} // verus!
