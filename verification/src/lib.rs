//! A native-widget list-row adapter: the verified core of a bridge between a
//! declarative scene graph and an imperative desktop-widget toolkit.
//!
//! One `NativeStandardListViewItem` stands for one visible list row (or combo
//! box popup entry). The adapter owns the row's attributes, answers geometry
//! and layout queries, routes input and focus events (always declining them),
//! and drives the host toolkit's paint delegate when the row is rendered.
//! Everything the host toolkit decides for itself (style hints, measured
//! sizes) enters through plain values; everything the adapter decides is
//! specified and proved here.

pub mod events;
pub mod geometry;
pub mod item;
pub mod paint;
pub mod style;
pub mod text;
