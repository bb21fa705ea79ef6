//! Shoelace-style UI component logic.
//!
//! The heart of the crate is the floating-layer positioning engine that backs
//! tooltips, popups and dropdowns: given an anchor rectangle, a content size,
//! a placement request and a viewport, it computes where the floating content
//! goes, applying distance/skidding offsets and flip/shift collision
//! avoidance. Around it sit the hover-delay state machine that decides when a
//! tooltip is visible, the modal overlay controller that centers dialog
//! content and routes backdrop clicks, and the plain configuration types for
//! the widget catalog. All geometry is carried in whole pixels so that every
//! computation here is exact.

pub mod badge;
pub mod breadcrumb;
pub mod button;
pub mod button_group;
pub mod checkbox;
pub mod dropdown;
pub mod floating;
pub mod gallery;
pub mod geometry;
pub mod hover;
pub mod hovered;
pub mod input;
pub mod menu_item;
pub mod menu_label;
pub mod overlay;
pub mod palette;
pub mod placement;
pub mod popup;
pub mod resolve;
pub mod scrollable;
pub mod shell;
pub mod style;
pub mod theme;
pub mod tooltip;
