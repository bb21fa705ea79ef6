//! Color tokens: a named color scale plus a value step on it.
//!
//! A token identifies a design-system color symbolically; turning it into an
//! actual color is the job of the host theme layer, which owns the per-theme
//! scales.

use vstd::prelude::*;

verus! {

/// The value step within a color scale, from lightest to darkest.
#[derive(Debug, Clone, Copy, PartialEq, Eq, Structural)]
pub enum ColorValue {
    C50,
    C100,
    C200,
    C300,
    C400,
    C500,
    C600,
    C700,
    C800,
    C900,
    C950,
}

/// The named color scales of the design system, plus the two fixed neutral
/// extremes.
#[derive(Debug, Clone, Copy, PartialEq, Eq, Structural)]
pub enum ColorVariant {
    Gray,
    Red,
    Orange,
    Amber,
    Yellow,
    Lime,
    Green,
    Emerald,
    Teal,
    Cyan,
    Sky,
    Blue,
    Indigo,
    Violet,
    Purple,
    Fuchsia,
    Pink,
    Rose,
    Neutral,
    NeutralBase,
    NeutralDark,
}

/// A symbolic reference to one color of the design system.
#[derive(Debug, Clone, Copy, PartialEq, Eq, Structural)]
pub struct ColorToken {
    pub variant: ColorVariant,
    pub value: ColorValue,
}

impl ColorToken {
    /// Creates a token naming the given step of the given scale.
    pub fn new(variant: ColorVariant, value: ColorValue) -> (r: Self)
        ensures
            r == (ColorToken { variant, value }),
    {
        ColorToken { variant, value }
    }
}

} // verus!
