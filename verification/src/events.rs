//! Input and focus events, and the answers an item can give to them.
//!
//! The scene graph routes pointer, key and focus events to the item that owns
//! the hit position or the focus; the item answers synchronously with one of
//! the result values below, and the scene graph propagates the event further
//! according to that answer.

use vstd::prelude::*;

verus! {

/// A pointer event, in the item's logical coordinates.
#[derive(Clone, Copy, Debug, PartialEq, Eq, Structural)]
pub enum MouseEvent {
    Pressed { x: i64, y: i64 },
    Released { x: i64, y: i64 },
    Moved { x: i64, y: i64 },
    Exit,
}

/// A keyboard event: the text the pressed key produced.
#[derive(Clone, Debug)]
pub struct KeyEvent {
    pub text: String,
}

/// A change of the focus chain reaching this item.
#[derive(Clone, Copy, Debug, PartialEq, Eq, Structural)]
pub enum FocusEvent {
    FocusIn,
    FocusOut,
}

/// What an item does with a pointer event seen before its children.
#[derive(Clone, Copy, Debug, PartialEq, Eq, Structural)]
pub enum InputEventFilterResult {
    /// Let the children see the event, and do not claim it afterwards.
    ForwardAndIgnore,
    /// Let the children see the event, then offer it to this item again.
    ForwardEvent,
    /// Consume the event before the children see it.
    Intercept,
}

/// What an item did with a pointer event.
#[derive(Clone, Copy, Debug, PartialEq, Eq, Structural)]
pub enum InputEventResult {
    EventAccepted,
    EventIgnored,
    GrabMouse,
}

/// What an item did with a key event.
#[derive(Clone, Copy, Debug, PartialEq, Eq, Structural)]
pub enum KeyEventResult {
    EventAccepted,
    EventIgnored,
}

/// What an item did with a focus event.
#[derive(Clone, Copy, Debug, PartialEq, Eq, Structural)]
pub enum FocusEventResult {
    FocusAccepted,
    FocusIgnored,
}

} // verus!
