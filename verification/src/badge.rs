//! Badge component configuration.
//!
//! A badge is a small status label: a text, a color variant, optionally
//! drawn as a fully rounded pill, optionally pulsating to draw attention.

use vstd::prelude::*;

use crate::style::BadgeVariant;

verus! {

/// Configuration of a badge.
#[derive(Debug, Clone)]
pub struct Badge {
    pub content: String,
    pub variant: BadgeVariant,
    pub pill: bool,
    pub pulse: bool,
}

impl Badge {
    /// Creates a new badge with the given content.
    pub fn new(content: String) -> (r: Self)
        ensures
            r.content == content,
            r.variant == BadgeVariant::Primary,
            !r.pill,
            !r.pulse,
    {
        Badge { content, variant: BadgeVariant::Primary, pill: false, pulse: false }
    }

    /// Sets the badge variant.
    pub fn variant(self, variant: BadgeVariant) -> (r: Self)
        ensures
            r == (Badge { variant, ..self }),
    {
        Badge { variant, ..self }
    }

    /// Sets whether the badge has fully rounded corners (pill style).
    pub fn pill(self, pill: bool) -> (r: Self)
        ensures
            r == (Badge { pill, ..self }),
    {
        Badge { pill, ..self }
    }

    /// Sets whether the badge pulsates to draw attention.
    pub fn pulse(self, pulse: bool) -> (r: Self)
        ensures
            r == (Badge { pulse, ..self }),
    {
        Badge { pulse, ..self }
    }
}

} // verus!
