//! The modal overlay controller.
//!
//! A modal overlay paints a full-viewport backdrop behind centered content
//! and intercepts all pointer input: a primary press outside the content's
//! bounds emits the configured dismissal message and is consumed, a press
//! inside is forwarded to the content, and every other event goes to the
//! content unconditionally. The underlay never receives events while the
//! overlay is active. Whether the overlay is active is entirely the caller's
//! choice; there are no timers here.

use vstd::prelude::*;

use crate::geometry::{center_offset, center_offset_spec, Point, Rect, Size};

verus! {

/// A color with 8-bit channels, alpha included.
#[derive(Debug, Clone, Copy, PartialEq, Eq, Structural)]
pub struct Rgba {
    pub r: u8,
    pub g: u8,
    pub b: u8,
    pub a: u8,
}

/// The backdrop drawn when no color is configured: black at half opacity.
pub open spec fn default_backdrop_spec() -> Rgba {
    Rgba { r: 0, g: 0, b: 0, a: 128 }
}

/// Configuration of a modal overlay: the backdrop color and the message
/// emitted when the backdrop is clicked.
#[derive(Debug, Clone)]
pub struct Overlay<Message> {
    pub backdrop_color: Rgba,
    pub on_backdrop_click: Option<Message>,
}

/// An event as seen by the modal layer: either a primary pointer-button
/// press at a known position, or anything else.
#[derive(Debug, Clone, Copy, PartialEq, Eq, Structural)]
pub enum OverlayEvent {
    PrimaryPress(Point),
    Other,
}

/// Where the modal layer sends an event, and whether it raises the
/// dismissal signal.
#[derive(Debug, Clone, Copy, PartialEq, Eq, Structural)]
pub struct Routing {
    /// Emit the configured dismissal message.
    pub dismiss: bool,
    /// Forward the event to the content subtree.
    pub to_content: bool,
    /// Forward the event to the underlay beneath the overlay.
    pub to_underlay: bool,
}

/// How the modal layer routes `event` given the content rectangle: a primary
/// press outside the content dismisses (when a dismissal message is
/// configured) and is consumed; a press inside, and every other event, goes
/// to the content. Nothing ever reaches the underlay.
pub open spec fn route_spec(has_dismiss: bool, event: OverlayEvent, content: Rect) -> Routing {
    match event {
        OverlayEvent::PrimaryPress(p) => if content.contains_spec(p) {
            Routing { dismiss: false, to_content: true, to_underlay: false }
        } else {
            Routing { dismiss: has_dismiss, to_content: false, to_underlay: false }
        },
        OverlayEvent::Other => Routing { dismiss: false, to_content: true, to_underlay: false },
    }
}

impl<Message> Overlay<Message> {
    /// Creates a new modal overlay configuration with the default backdrop
    /// and no dismissal message.
    pub fn new() -> (r: Self)
        ensures
            r.backdrop_color == default_backdrop_spec(),
            r.on_backdrop_click is None,
    {
        Overlay { backdrop_color: Rgba { r: 0, g: 0, b: 0, a: 128 }, on_backdrop_click: None }
    }

    /// Sets the color of the backdrop.
    pub fn backdrop_color(self, color: Rgba) -> (r: Self)
        ensures
            r.backdrop_color == color,
            r.on_backdrop_click == self.on_backdrop_click,
    {
        Overlay { backdrop_color: color, ..self }
    }

    /// Sets the message to emit when the backdrop is clicked.
    pub fn on_backdrop_click(self, message: Message) -> (r: Self)
        ensures
            r.on_backdrop_click == Some(message),
            r.backdrop_color == self.backdrop_color,
    {
        Overlay { on_backdrop_click: Some(message), ..self }
    }

    /// Routes one event through the active modal layer, given the rectangle
    /// the centered content occupies.
    pub fn route_event(&self, event: &OverlayEvent, content: &Rect) -> (r: Routing)
        requires
            content.wf(),
            (*event matches OverlayEvent::PrimaryPress(p) ==> p.wf()),
        ensures
            r == route_spec(self.on_backdrop_click is Some, *event, *content),
    {
        match event {
            OverlayEvent::PrimaryPress(p) => {
                if content.contains(*p) {
                    Routing { dismiss: false, to_content: true, to_underlay: false }
                } else {
                    Routing {
                        dismiss: self.on_backdrop_click.is_some(),
                        to_content: false,
                        to_underlay: false,
                    }
                }
            },
            OverlayEvent::Other => Routing { dismiss: false, to_content: true, to_underlay: false },
        }
    }
}

impl<Message> Default for Overlay<Message> {
    fn default() -> (r: Self)
        ensures
            r.backdrop_color == default_backdrop_spec(),
            r.on_backdrop_click is None,
    {
        Overlay::new()
    }
}

/// The rectangle of modal content centered in a viewport: the underlying
/// page's layout is untouched, the content is simply centered, overflowing
/// symmetrically when it is larger than the viewport.
pub fn center_in(viewport: Size, content: Size) -> (r: Rect)
    requires
        viewport.wf(),
        content.wf(),
    ensures
        r.x == center_offset_spec(viewport.w as int, content.w as int),
        r.y == center_offset_spec(viewport.h as int, content.h as int),
        r.w == content.w,
        r.h == content.h,
{
    Rect {
        x: center_offset(viewport.w, content.w),
        y: center_offset(viewport.h, content.h),
        w: content.w,
        h: content.h,
    }
}

/// Law: while a modal overlay is active, a primary press outside the content
/// rectangle yields exactly the dismissal signal (when one is configured)
/// and reaches neither the content nor the underlay; a press inside yields
/// no dismissal and reaches only the content; and no event of any kind
/// reaches the underlay.
pub proof fn lemma_modal_press_routing(has_dismiss: bool, event: OverlayEvent, content: Rect)
    ensures
        !route_spec(has_dismiss, event, content).to_underlay,
        (event matches OverlayEvent::PrimaryPress(p) && !content.contains_spec(p)) ==> route_spec(
            has_dismiss,
            event,
            content,
        ) == (Routing { dismiss: has_dismiss, to_content: false, to_underlay: false }),
        (event matches OverlayEvent::PrimaryPress(p) && content.contains_spec(p)) ==> (
        !route_spec(has_dismiss, event, content).dismiss && route_spec(
            has_dismiss,
            event,
            content,
        ).to_content),
{
}

} // verus!
