//! Scroll anchoring for a bounded window over an endless, two-way scrollable list.
//!
//! Only a window of items is materialised at a time. When the viewport comes near
//! either end of the content, more items are added at that end and, one correction
//! later, items are evicted at the other end. Every such change moves the content
//! under the viewport, so each one is followed by a correction step that computes
//! the scroll offset at which the reader sees no jump.
//!
//! The library holds the decisions; the host holds the rendering surface. The host
//!
//! - mounts a [`controller::ScrollAnchorController`];
//! - measures the surface on every scroll event and hands the measurement to
//!   `apply_scroll_event`;
//! - whenever a call leaves a correction outstanding, waits until the surface
//!   shows the change, measures again and calls `apply_mutation_settled`;
//! - writes the offset of a `Correction::ScrollTo` to the surface, as
//!   [`bridge::ScrollWrite`] tells it to.
//!
//! All lengths and offsets along the scroll axis are whole layout units, held in
//! `i64`. The host converts what its rendering surface reports.

pub mod bridge;
pub mod config;
pub mod controller;
pub mod item;
pub mod model;
pub mod theorems;
pub mod viewport;
pub mod window;
