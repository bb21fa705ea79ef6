//! Dropdown configuration: a popup specialised for menus.
//!
//! A dropdown pairs a trigger with a menu shown below it while `open` is
//! true. It carries the same positioning knobs as a popup, plus the hoist
//! flag that lets the menu escape clipping containers.

use vstd::prelude::*;

use crate::floating::Visibility;
use crate::geometry::{Rect, Size, COORD_BOUND};
use crate::placement::Placement;
use crate::resolve::{effective_placement_spec, resolve, resolve_origin_spec};

verus! {

/// Configuration of a dropdown. The trigger and the menu themselves are the
/// host's widgets; this carries everything the positioning engine needs.
#[derive(Debug, Clone, Copy, PartialEq, Eq, Structural)]
pub struct Dropdown {
    pub open: bool,
    pub placement: Placement,
    pub distance: i64,
    pub skidding: i64,
    pub flip: bool,
    pub shift: bool,
    pub hoist: bool,
}

impl Dropdown {
    /// The offsets a dropdown may carry: bounded so that placement
    /// arithmetic stays exact.
    pub open spec fn wf(self) -> bool {
        -COORD_BOUND <= self.distance <= COORD_BOUND && -COORD_BOUND <= self.skidding
            <= COORD_BOUND
    }

    /// Creates a new dropdown configuration with the given open state.
    ///
    /// Defaults: placed below the trigger with a four-pixel gap, no
    /// skidding, flip and shift enabled, not hoisted.
    pub fn new(open: bool) -> (r: Self)
        ensures
            r == (Dropdown {
                open,
                placement: Placement::Bottom,
                distance: 4,
                skidding: 0,
                flip: true,
                shift: true,
                hoist: false,
            }),
            r.wf(),
    {
        Dropdown {
            open,
            placement: Placement::Bottom,
            distance: 4,
            skidding: 0,
            flip: true,
            shift: true,
            hoist: false,
        }
    }

    /// Sets the dropdown placement.
    pub fn placement(self, placement: Placement) -> (r: Self)
        ensures
            r == (Dropdown { placement, ..self }),
    {
        Dropdown { placement, ..self }
    }

    /// Sets the distance between dropdown and trigger, in pixels.
    pub fn distance(self, distance: i64) -> (r: Self)
        requires
            -COORD_BOUND <= distance <= COORD_BOUND,
        ensures
            r == (Dropdown { distance, ..self }),
    {
        Dropdown { distance, ..self }
    }

    /// Sets the skidding (offset along the trigger's edge), in pixels.
    pub fn skidding(self, skidding: i64) -> (r: Self)
        requires
            -COORD_BOUND <= skidding <= COORD_BOUND,
        ensures
            r == (Dropdown { skidding, ..self }),
    {
        Dropdown { skidding, ..self }
    }

    /// Sets whether the dropdown flips to the mirrored side when it would
    /// otherwise overflow the viewport.
    pub fn flip(self, flip: bool) -> (r: Self)
        ensures
            r == (Dropdown { flip, ..self }),
    {
        Dropdown { flip, ..self }
    }

    /// Sets whether the dropdown shifts along the cross axis to stay within
    /// the viewport.
    pub fn shift(self, shift: bool) -> (r: Self)
        ensures
            r == (Dropdown { shift, ..self }),
    {
        Dropdown { shift, ..self }
    }

    /// Sets whether the dropdown is hoisted out of clipping containers.
    pub fn hoist(self, hoist: bool) -> (r: Self)
        ensures
            r == (Dropdown { hoist, ..self }),
    {
        Dropdown { hoist, ..self }
    }

    /// Sets whether the dropdown is open (visible).
    pub fn open(self, open: bool) -> (r: Self)
        ensures
            r == (Dropdown { open, ..self }),
    {
        Dropdown { open, ..self }
    }

    /// How this dropdown's visibility is decided: manually.
    pub fn visibility(&self) -> (r: Visibility)
        ensures
            r == Visibility::Manual(self.open),
    {
        Visibility::Manual(self.open)
    }

    /// Resolves the rectangle for this dropdown's menu, and the placement
    /// actually used.
    pub fn resolve_rect(&self, anchor: &Rect, content: Size, viewport: &Rect) -> (r: (
        Rect,
        Placement,
    ))
        requires
            self.wf(),
            anchor.wf(),
            content.wf(),
            viewport.wf(),
        ensures
            r.0.x == resolve_origin_spec(
                *anchor,
                content,
                self.placement,
                *viewport,
                self.distance as int,
                self.skidding as int,
                self.flip,
                self.shift,
            ).0,
            r.0.y == resolve_origin_spec(
                *anchor,
                content,
                self.placement,
                *viewport,
                self.distance as int,
                self.skidding as int,
                self.flip,
                self.shift,
            ).1,
            r.0.w == content.w,
            r.0.h == content.h,
            r.1 == effective_placement_spec(
                *anchor,
                content,
                self.placement,
                *viewport,
                self.distance as int,
                self.skidding as int,
                self.flip,
            ),
    {
        resolve(
            anchor,
            content,
            self.placement,
            viewport,
            self.distance,
            self.skidding,
            self.flip,
            self.shift,
        )
    }
}

/// Convenience function to create a dropdown configuration.
pub fn dropdown(open: bool) -> (r: Dropdown)
    ensures
        r == (Dropdown {
            open,
            placement: Placement::Bottom,
            distance: 4,
            skidding: 0,
            flip: true,
            shift: true,
            hoist: false,
        }),
{
    Dropdown::new(open)
}

} // verus!
