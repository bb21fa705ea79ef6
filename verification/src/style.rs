//! Style classes and whole-number design tokens.
//!
//! Style classes carry the discrete styling decisions a component makes;
//! mapping them to actual colors, fonts and strokes is the host theme
//! layer's job. The token structs here are the ones whose values are whole
//! numbers; pixel-fraction tokens (font sizes, line heights) live with the
//! host.

use vstd::prelude::*;

use crate::input::InputSize;
use crate::palette::ColorToken;

verus! {

/// Badge variants of the design system.
#[derive(Debug, Clone, Copy, PartialEq, Eq, Structural)]
pub enum BadgeVariant {
    Primary,
    Success,
    Neutral,
    Warning,
    Danger,
}

/// Button variants of the design system.
#[derive(Debug, Clone, Copy, PartialEq, Eq, Structural)]
pub enum ButtonVariant {
    Default,
    Primary,
    Success,
    Neutral,
    Warning,
    Danger,
    Text,
}

/// Button sizes of the design system.
#[derive(Debug, Clone, Copy, PartialEq, Eq, Structural)]
pub enum ButtonSize {
    Small,
    Medium,
    Large,
}

/// Style class for custom checkbox styling.
#[derive(Debug, Clone, Copy, PartialEq, Eq, Structural)]
pub struct CheckboxStyleClass {
    pub is_checked: bool,
    pub is_indeterminate: bool,
    pub is_disabled: bool,
}

/// Style class for custom input styling.
#[derive(Debug, Clone, Copy, PartialEq, Eq, Structural)]
pub struct InputStyleClass {
    pub size: InputSize,
    pub disabled: bool,
    pub filled: bool,
    pub pill: bool,
}

/// Style class for custom text styling: an optional color token.
#[derive(Debug, Clone, Copy, PartialEq, Eq, Structural)]
pub struct TextStyleClass {
    pub color: Option<ColorToken>,
}

/// Scrollbar style classes.
#[derive(Debug, Clone, Copy, PartialEq, Eq, Structural)]
pub enum ScrollableClass {
    Default,
    /// A subtle scrollbar that appears on hover.
    Subtle,
}

/// Font weight tokens.
#[derive(Debug, Clone, Copy, PartialEq, Eq, Structural)]
pub struct FontWeight {
    pub light: u16,
    pub normal: u16,
    pub semibold: u16,
    pub bold: u16,
}

/// Transition duration tokens, in milliseconds.
#[derive(Debug, Clone, Copy, PartialEq, Eq, Structural)]
pub struct Transition {
    pub x_slow: u64,
    pub slow: u64,
    pub medium: u64,
    pub fast: u64,
    pub x_fast: u64,
}

/// Z-index tokens: the stacking order of the overlay layers. Tooltips sit
/// above toasts, toasts above dropdowns, dropdowns above dialogs, dialogs
/// above drawers.
#[derive(Debug, Clone, Copy, PartialEq, Eq, Structural)]
pub struct ZIndex {
    pub drawer: i32,
    pub dialog: i32,
    pub dropdown: i32,
    pub toast: i32,
    pub tooltip: i32,
}

impl Default for BadgeVariant {
    fn default() -> (r: Self)
        ensures
            r == BadgeVariant::Primary,
    {
        BadgeVariant::Primary
    }
}

impl Default for ButtonVariant {
    fn default() -> (r: Self)
        ensures
            r == ButtonVariant::Default,
    {
        ButtonVariant::Default
    }
}

impl Default for ButtonSize {
    fn default() -> (r: Self)
        ensures
            r == ButtonSize::Medium,
    {
        ButtonSize::Medium
    }
}

impl Default for CheckboxStyleClass {
    fn default() -> (r: Self)
        ensures
            r == (CheckboxStyleClass {
                is_checked: false,
                is_indeterminate: false,
                is_disabled: false,
            }),
    {
        CheckboxStyleClass { is_checked: false, is_indeterminate: false, is_disabled: false }
    }
}

impl Default for ScrollableClass {
    fn default() -> (r: Self)
        ensures
            r == ScrollableClass::Default,
    {
        ScrollableClass::Default
    }
}

impl Default for FontWeight {
    /// The design system's font weights.
    fn default() -> (r: Self)
        ensures
            r == (FontWeight { light: 300, normal: 400, semibold: 500, bold: 700 }),
    {
        FontWeight { light: 300, normal: 400, semibold: 500, bold: 700 }
    }
}

impl Default for Transition {
    /// The design system's transition durations.
    fn default() -> (r: Self)
        ensures
            r == (Transition { x_slow: 1000, slow: 500, medium: 250, fast: 150, x_fast: 50 }),
    {
        Transition { x_slow: 1000, slow: 500, medium: 250, fast: 150, x_fast: 50 }
    }
}

impl Default for ZIndex {
    /// The design system's stacking order.
    fn default() -> (r: Self)
        ensures
            r == (ZIndex { drawer: 700, dialog: 800, dropdown: 900, toast: 950, tooltip: 1000 }),
    {
        ZIndex { drawer: 700, dialog: 800, dropdown: 900, toast: 950, tooltip: 1000 }
    }
}

} // verus!
