//! Keyboard input as plain values.

use vstd::prelude::*;

verus! {

/// The physical keys that the renderer reacts to; every other key is `Other`.
#[derive(Clone, Copy, Debug, PartialEq, Eq, Structural)]
pub enum Key {
    Escape,
    ShiftLeft,
    KeyW,
    KeyS,
    KeyA,
    KeyD,
    KeyJ,
    KeyK,
    Other,
}

/// One key transition: which key, and whether it went down (`pressed`) or up.
#[derive(Clone, Copy, Debug, PartialEq, Eq, Structural)]
pub struct KeyInput {
    pub key: Key,
    pub pressed: bool,
}

} // verus!
