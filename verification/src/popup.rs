//! Popup configuration: a manually controlled floating layer.
//!
//! A popup positions floating content relative to an anchor with one of the
//! twelve placements, at a configurable distance and skidding, and with flip
//! and shift collision avoidance. Unlike a tooltip it has no hover machinery:
//! visibility is an externally supplied boolean, and while it is false the
//! floating branch is absent from the tree altogether.

use vstd::prelude::*;

use crate::floating::Visibility;
use crate::geometry::{Rect, Size, COORD_BOUND};
use crate::placement::Placement;
use crate::resolve::{effective_placement_spec, resolve, resolve_origin_spec};

verus! {

/// Configuration of a popup. The anchor and the floating content themselves
/// are the host's widgets; this carries everything the positioning engine
/// needs.
#[derive(Debug, Clone, Copy, PartialEq, Eq, Structural)]
pub struct Popup {
    pub active: bool,
    pub placement: Placement,
    pub distance: i64,
    pub skidding: i64,
    pub arrow: bool,
    pub flip: bool,
    pub shift: bool,
    pub duration: u64,
}

impl Popup {
    /// The offsets a popup may carry: bounded so that placement arithmetic
    /// stays exact.
    pub open spec fn wf(self) -> bool {
        -COORD_BOUND <= self.distance <= COORD_BOUND && -COORD_BOUND <= self.skidding
            <= COORD_BOUND
    }

    /// Creates a new popup configuration with the given active state.
    ///
    /// Defaults: placement `Top`, no distance, no skidding, no arrow, flip
    /// and shift enabled, shown immediately.
    pub fn new(active: bool) -> (r: Self)
        ensures
            r == (Popup {
                active,
                placement: Placement::Top,
                distance: 0,
                skidding: 0,
                arrow: false,
                flip: true,
                shift: true,
                duration: 0,
            }),
            r.wf(),
    {
        Popup {
            active,
            placement: Placement::Top,
            distance: 0,
            skidding: 0,
            arrow: false,
            flip: true,
            shift: true,
            duration: 0,
        }
    }

    /// Sets the popup placement.
    pub fn placement(self, placement: Placement) -> (r: Self)
        ensures
            r == (Popup { placement, ..self }),
    {
        Popup { placement, ..self }
    }

    /// Sets the distance between popup and anchor, in pixels: the gap
    /// perpendicular to the placement side.
    pub fn distance(self, distance: i64) -> (r: Self)
        requires
            -COORD_BOUND <= distance <= COORD_BOUND,
        ensures
            r == (Popup { distance, ..self }),
    {
        Popup { distance, ..self }
    }

    /// Sets the skidding, in pixels: the offset along the anchor's edge.
    /// Positive values shift toward the end of that edge.
    pub fn skidding(self, skidding: i64) -> (r: Self)
        requires
            -COORD_BOUND <= skidding <= COORD_BOUND,
        ensures
            r == (Popup { skidding, ..self }),
    {
        Popup { skidding, ..self }
    }

    /// Sets whether to show an arrow pointing to the anchor.
    pub fn arrow(self, arrow: bool) -> (r: Self)
        ensures
            r == (Popup { arrow, ..self }),
    {
        Popup { arrow, ..self }
    }

    /// Sets whether the popup flips to the mirrored side when it would
    /// otherwise overflow the viewport.
    pub fn flip(self, flip: bool) -> (r: Self)
        ensures
            r == (Popup { flip, ..self }),
    {
        Popup { flip, ..self }
    }

    /// Sets whether the popup shifts along the cross axis to stay within the
    /// viewport.
    pub fn shift(self, shift: bool) -> (r: Self)
        ensures
            r == (Popup { shift, ..self }),
    {
        Popup { shift, ..self }
    }

    /// Sets the delay before the popup appears, in milliseconds.
    pub fn duration(self, duration: u64) -> (r: Self)
        ensures
            r == (Popup { duration, ..self }),
    {
        Popup { duration, ..self }
    }

    /// Sets whether the popup is active (visible).
    pub fn active(self, active: bool) -> (r: Self)
        ensures
            r == (Popup { active, ..self }),
    {
        Popup { active, ..self }
    }

    /// How this popup's visibility is decided: manually.
    pub fn visibility(&self) -> (r: Visibility)
        ensures
            r == Visibility::Manual(self.active),
    {
        Visibility::Manual(self.active)
    }

    /// Resolves the rectangle for this popup's floating content, and the
    /// placement actually used.
    pub fn resolve_rect(&self, anchor: &Rect, content: Size, viewport: &Rect) -> (r: (
        Rect,
        Placement,
    ))
        requires
            self.wf(),
            anchor.wf(),
            content.wf(),
            viewport.wf(),
        ensures
            r.0.x == resolve_origin_spec(
                *anchor,
                content,
                self.placement,
                *viewport,
                self.distance as int,
                self.skidding as int,
                self.flip,
                self.shift,
            ).0,
            r.0.y == resolve_origin_spec(
                *anchor,
                content,
                self.placement,
                *viewport,
                self.distance as int,
                self.skidding as int,
                self.flip,
                self.shift,
            ).1,
            r.0.w == content.w,
            r.0.h == content.h,
            r.1 == effective_placement_spec(
                *anchor,
                content,
                self.placement,
                *viewport,
                self.distance as int,
                self.skidding as int,
                self.flip,
            ),
    {
        resolve(
            anchor,
            content,
            self.placement,
            viewport,
            self.distance,
            self.skidding,
            self.flip,
            self.shift,
        )
    }
}

/// Convenience function to create a popup configuration.
pub fn popup(active: bool) -> (r: Popup)
    ensures
        r == (Popup {
            active,
            placement: Placement::Top,
            distance: 0,
            skidding: 0,
            arrow: false,
            flip: true,
            shift: true,
            duration: 0,
        }),
{
    Popup::new(active)
}

} // verus!
