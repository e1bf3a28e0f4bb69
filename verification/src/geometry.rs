//! Logical geometry of one list row.
//!
//! Coordinates are logical (device-independent) pixels. The layout system
//! owns the row's position and extent; the adapter only packs them into a
//! rectangle on demand.

use vstd::prelude::*;

verus! {

/// An axis-aligned rectangle in logical coordinates: top-left corner plus
/// extent.
#[derive(Clone, Copy, Debug, PartialEq, Eq, Structural)]
pub struct LogicalRect {
    pub x: i64,
    pub y: i64,
    pub width: i64,
    pub height: i64,
}

} // verus!
