//! A retained-mode widget toolkit for a single-application e-ink device.
//!
//! Widgets are described by templates that a fluent builder assembles from
//! shared properties, child templates and event handlers. The window shell
//! translates touch input into the toolkit's events, drives the update and
//! render pipeline and tracks which part of the display has to be refreshed.

pub mod event;
pub mod fonts;
pub mod geometry;
pub mod platform;
pub mod properties;
pub mod render;
pub mod shell;
pub mod widget;
