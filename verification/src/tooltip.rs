//! Tooltip configuration: a hover-driven floating layer.
//!
//! A tooltip shows a short text next to its anchor after the pointer has
//! rested on the anchor for a configurable delay, and hides it again after
//! the pointer leaves. Its placement is one of the four centered sides.
//! When hoisted, the tooltip may escape the viewport: no collision avoidance
//! is applied; otherwise it flips and shifts to stay inside.

use vstd::prelude::*;

use crate::geometry::{Rect, Size, COORD_BOUND};
use crate::hover::{step_spec, HoverEvent, HoverState};
use crate::placement;
use crate::resolve::{effective_placement_spec, resolve, resolve_origin_spec};

verus! {

/// Tooltip placement options: the four sides, centered.
#[derive(Debug, Clone, Copy, PartialEq, Eq, Structural)]
pub enum Placement {
    Top,
    Right,
    Bottom,
    Left,
}

/// What makes the tooltip appear.
#[derive(Debug, Clone, Copy, PartialEq, Eq, Structural)]
pub enum Trigger {
    Hover,
    Focus,
    Click,
    Manual,
}

impl Default for Placement {
    fn default() -> (r: Self)
        ensures
            r == Placement::Top,
    {
        Placement::Top
    }
}

impl Default for Trigger {
    fn default() -> (r: Self)
        ensures
            r == Trigger::Hover,
    {
        Trigger::Hover
    }
}

impl Placement {
    /// The corresponding centered placement of the full twelve-direction
    /// set.
    pub open spec fn to_placement_spec(self) -> placement::Placement {
        match self {
            Placement::Top => placement::Placement::Top,
            Placement::Right => placement::Placement::Right,
            Placement::Bottom => placement::Placement::Bottom,
            Placement::Left => placement::Placement::Left,
        }
    }

    /// The corresponding centered placement of the full twelve-direction
    /// set.
    pub fn to_placement(self) -> (r: placement::Placement)
        ensures
            r == self.to_placement_spec(),
    {
        match self {
            Placement::Top => placement::Placement::Top,
            Placement::Right => placement::Placement::Right,
            Placement::Bottom => placement::Placement::Bottom,
            Placement::Left => placement::Placement::Left,
        }
    }
}

/// Configuration of a tooltip: the text it shows and how it is positioned
/// and triggered. The anchor itself is the host's widget.
#[derive(Debug, Clone)]
pub struct Tooltip {
    pub content: String,
    pub placement: Placement,
    pub distance: i64,
    pub skidding: i64,
    pub disabled: bool,
    pub hoist: bool,
    pub duration: u64,
}

impl Tooltip {
    /// The offsets a tooltip may carry: bounded so that placement arithmetic
    /// stays exact.
    pub open spec fn wf(self) -> bool {
        -COORD_BOUND <= self.distance <= COORD_BOUND && -COORD_BOUND <= self.skidding
            <= COORD_BOUND
    }

    /// Creates a new tooltip with the given text.
    ///
    /// Defaults: placement `Top`, an eight-pixel gap, no skidding, enabled,
    /// not hoisted, a half-second hover delay.
    pub fn new(content: String) -> (r: Self)
        ensures
            r.content == content,
            r.placement == Placement::Top,
            r.distance == 8,
            r.skidding == 0,
            !r.disabled,
            !r.hoist,
            r.duration == 500,
            r.wf(),
    {
        Tooltip {
            content,
            placement: Placement::Top,
            distance: 8,
            skidding: 0,
            disabled: false,
            hoist: false,
            duration: 500,
        }
    }

    /// Sets the tooltip placement.
    pub fn placement(self, placement: Placement) -> (r: Self)
        ensures
            r == (Tooltip { placement, ..self }),
    {
        Tooltip { placement, ..self }
    }

    /// Sets the distance between tooltip and anchor, in pixels.
    pub fn distance(self, distance: i64) -> (r: Self)
        requires
            -COORD_BOUND <= distance <= COORD_BOUND,
        ensures
            r == (Tooltip { distance, ..self }),
    {
        Tooltip { distance, ..self }
    }

    /// Sets the skidding (offset along the anchor's edge), in pixels.
    pub fn skidding(self, skidding: i64) -> (r: Self)
        requires
            -COORD_BOUND <= skidding <= COORD_BOUND,
        ensures
            r == (Tooltip { skidding, ..self }),
    {
        Tooltip { skidding, ..self }
    }

    /// Sets whether the tooltip is disabled. A disabled tooltip never shows,
    /// whatever the pointer does.
    pub fn disabled(self, disabled: bool) -> (r: Self)
        ensures
            r == (Tooltip { disabled, ..self }),
    {
        Tooltip { disabled, ..self }
    }

    /// Sets whether the tooltip is hoisted out of clipping containers. A
    /// hoisted tooltip is not clamped to the viewport.
    pub fn hoist(self, hoist: bool) -> (r: Self)
        ensures
            r == (Tooltip { hoist, ..self }),
    {
        Tooltip { hoist, ..self }
    }

    /// Sets the hover delay before the tooltip appears, in milliseconds.
    pub fn duration(self, duration: u64) -> (r: Self)
        ensures
            r == (Tooltip { duration, ..self }),
    {
        Tooltip { duration, ..self }
    }

    /// Advances the hover state machine by one event for this tooltip.
    /// Disabling forces `Idle` regardless of the pointer.
    pub fn step(&self, state: HoverState, event: HoverEvent) -> (r: HoverState)
        ensures
            r == (if self.disabled {
                HoverState::Idle
            } else {
                step_spec(state, event, self.duration)
            }),
    {
        if self.disabled {
            HoverState::Idle
        } else {
            state.step(event, self.duration)
        }
    }

    /// Resolves the rectangle for this tooltip's floating content, and the
    /// placement actually used. Unless the tooltip is hoisted, the content
    /// flips and shifts to stay inside the viewport.
    pub fn resolve_rect(&self, anchor: &Rect, content: Size, viewport: &Rect) -> (r: (
        Rect,
        placement::Placement,
    ))
        requires
            self.wf(),
            anchor.wf(),
            content.wf(),
            viewport.wf(),
        ensures
            r.0.x == resolve_origin_spec(
                *anchor,
                content,
                self.placement.to_placement_spec(),
                *viewport,
                self.distance as int,
                self.skidding as int,
                !self.hoist,
                !self.hoist,
            ).0,
            r.0.y == resolve_origin_spec(
                *anchor,
                content,
                self.placement.to_placement_spec(),
                *viewport,
                self.distance as int,
                self.skidding as int,
                !self.hoist,
                !self.hoist,
            ).1,
            r.0.w == content.w,
            r.0.h == content.h,
            r.1 == effective_placement_spec(
                *anchor,
                content,
                self.placement.to_placement_spec(),
                *viewport,
                self.distance as int,
                self.skidding as int,
                !self.hoist,
            ),
    {
        resolve(
            anchor,
            content,
            self.placement.to_placement(),
            viewport,
            self.distance,
            self.skidding,
            !self.hoist,
            !self.hoist,
        )
    }
}

/// Convenience function to create a tooltip.
pub fn tooltip(content: String) -> (r: Tooltip)
    ensures
        r.content == content,
        r.placement == Placement::Top,
        r.distance == 8,
        r.skidding == 0,
        !r.disabled,
        !r.hoist,
        r.duration == 500,
        r.wf(),
{
    Tooltip::new(content)
}

} // verus!
