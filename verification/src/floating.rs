//! The floating overlay controller: whether floating content is visible and
//! where pointer events go while it is.
//!
//! Two visibility models exist. Manual popups and dropdowns are driven by an
//! externally supplied boolean; when it is false the floating branch is
//! absent from the tree altogether. Hover-driven tooltips are driven by the
//! hover state machine. Either way, pointer events are offered to the
//! floating content's region first and fall through to the anchor and the
//! rest of the tree otherwise — unlike a modal overlay, a floating layer
//! never blocks events outside its own bounds.

use vstd::prelude::*;

use crate::geometry::{Point, Rect, Size};
use crate::hover::HoverState;

verus! {

/// How the visibility of floating content is decided.
#[derive(Debug, Clone, Copy, PartialEq, Eq, Structural)]
pub enum Visibility {
    /// Externally controlled, as for popups and dropdowns.
    Manual(bool),
    /// Driven by the hover-delay state machine, as for tooltips.
    Hover(HoverState),
}

/// Whether floating content governed by `v` is visible.
pub open spec fn visible_spec(v: Visibility) -> bool {
    match v {
        Visibility::Manual(active) => active,
        Visibility::Hover(state) => state.is_visible_spec(),
    }
}

/// Where a pointer event is delivered while floating content may be showing.
#[derive(Debug, Clone, Copy, PartialEq, Eq, Structural)]
pub enum FloatingTarget {
    /// The floating content region handles the event.
    Floating,
    /// The event falls through to the anchor and the rest of the tree.
    Anchor,
}

impl Visibility {
    /// Whether the floating content is visible.
    pub fn is_visible(self) -> (r: bool)
        ensures
            r == visible_spec(self),
    {
        match self {
            Visibility::Manual(active) => active,
            Visibility::Hover(state) => state.is_visible(),
        }
    }
}

/// The size floating content is laid out with: its natural, unconstrained
/// measured size, capped per axis to the viewport's size when shifting is
/// enabled (content that will be clamped into the viewport must not be
/// larger than it).
pub fn layout_size(natural: Size, viewport: Size, shift: bool) -> (r: Size)
    requires
        natural.wf(),
        viewport.wf(),
    ensures
        r.w == (if shift && natural.w > viewport.w {
            viewport.w
        } else {
            natural.w
        }),
        r.h == (if shift && natural.h > viewport.h {
            viewport.h
        } else {
            natural.h
        }),
        r.wf(),
{
    if shift {
        Size {
            w: if natural.w > viewport.w {
                viewport.w
            } else {
                natural.w
            },
            h: if natural.h > viewport.h {
                viewport.h
            } else {
                natural.h
            },
        }
    } else {
        natural
    }
}

/// Routes a pointer event: hit-test the floating content first (when it is
/// visible), and let everything else fall through to the anchor.
pub fn route_pointer(visibility: Visibility, floating: &Rect, cursor: Point) -> (r: FloatingTarget)
    requires
        floating.wf(),
        cursor.wf(),
    ensures
        r == (if visible_spec(visibility) && floating.contains_spec(cursor) {
            FloatingTarget::Floating
        } else {
            FloatingTarget::Anchor
        }),
{
    if visibility.is_visible() && floating.contains(cursor) {
        FloatingTarget::Floating
    } else {
        FloatingTarget::Anchor
    }
}

} // verus!
