//! Input events pushed by external collaborators.
//!
//! Distances are fixed point (see `fixed`): one screen pixel is `FP_ONE`
//! steps of a pointer delta.

use vstd::prelude::*;

verus! {

/// Whether a key went up or down.
#[derive(Clone, Copy, Debug, PartialEq, Eq, Structural)]
pub enum KeyState {
    UP,
    DOWN,
}

/// A key transition: the key's identifier string and its new state.
#[derive(Debug)]
pub struct KeyboardEvent {
    pub state: KeyState,
    pub key: String,
}

/// A pointer button click. Carries no data yet.
#[derive(Clone, Copy, Debug)]
pub struct ClickEvent {
}

/// A relative pointer motion, in fixed-point pixels.
#[derive(Clone, Copy, Debug, PartialEq, Eq, Structural)]
pub struct MouseMoveEvent {
    pub dx: i64,
    pub dy: i64,
}

/// A new surface size in whole pixels.
#[derive(Clone, Copy, Debug, PartialEq, Eq, Structural)]
pub struct ResizeEvent {
    pub width: u32,
    pub height: u32,
}

} // verus!
