//! Four-dimensional shapes and the key control of the w-slice through them.
//!
//! The slice position is floating point and is advanced by the caller, one
//! step of `movement_direction` per frame; this module decides the direction.

use vstd::prelude::*;

use crate::input::{Key, KeyInput};

verus! {

/// The kinds of four-dimensional shape the hyper shader can draw.
#[derive(Clone, Copy, Debug, PartialEq, Eq, Structural)]
pub enum HypershapeType {
    Sphere,
    Box,
    Torus,
}

/// The number by which the shader knows each kind of shape.
pub open spec fn shape_code(shape: HypershapeType) -> u32 {
    match shape {
        HypershapeType::Sphere => 0,
        HypershapeType::Box => 1,
        HypershapeType::Torus => 2,
    }
}

impl HypershapeType {
    /// The number by which the shader knows this kind of shape.
    pub fn code(&self) -> (code: u32)
        ensures
            code == shape_code(*self),
    {
        match self {
            HypershapeType::Sphere => 0,
            HypershapeType::Box => 1,
            HypershapeType::Torus => 2,
        }
    }
}

impl Default for HypershapeType {
    /// The default shape is the sphere.
    fn default() -> (shape: HypershapeType)
        ensures
            shape == HypershapeType::Sphere,
    {
        HypershapeType::Sphere
    }
}

/// Whether `key` moves the w-slice.
pub open spec fn is_slice_key(key: Key) -> bool {
    key == Key::KeyJ || key == Key::KeyK
}

/// The slice direction after `event`: any release stops the slice; pressing K
/// moves it towards +w, pressing J towards -w; pressing another key keeps the
/// direction it had.
pub open spec fn slice_direction_after(direction: int, event: KeyInput) -> int {
    if !event.pressed {
        0
    } else {
        match event.key {
            Key::KeyK => 1,
            Key::KeyJ => -1,
            _ => direction,
        }
    }
}

/// The key-driven state of the w-slice.
pub struct HyperManager {
    /// -1, 0 or 1: the sign of the slice's motion per frame.
    movement_direction: i8,
}

impl HyperManager {
    /// The direction is always -1, 0 or 1.
    #[verifier::type_invariant]
    spec fn direction_is_a_sign(self) -> bool {
        -1 <= self.movement_direction <= 1
    }

    /// The sign of the slice's motion per frame.
    pub closed spec fn direction(self) -> int {
        self.movement_direction as int
    }

    /// A slice at rest.
    pub fn new() -> (manager: HyperManager)
        ensures
            manager.direction() == 0,
    {
        HyperManager { movement_direction: 0 }
    }

    /// The sign of the slice's motion per frame: -1, 0 or 1.
    pub fn movement_direction(&self) -> (direction: i8)
        ensures
            direction == self.direction(),
            -1 <= direction <= 1,
    {
        proof {
            use_type_invariant(self);
        }
        self.movement_direction
    }

    /// Updates the slice direction for a key transition.
    pub fn handle_slice_movement(&mut self, event: &KeyInput)
        ensures
            final(self).direction() == slice_direction_after(old(self).direction(), *event),
    {
        if !event.pressed {
            self.movement_direction = 0;
            return ;
        }
        match event.key {
            Key::KeyK => {
                self.movement_direction = 1;
            },
            Key::KeyJ => {
                self.movement_direction = -1;
            },
            _ => {},
        }
    }
}

/// The slice direction stays among -1, 0 and 1 whatever keys arrive.
pub proof fn law_direction_stays_a_sign(direction: int, event: KeyInput)
    requires
        -1 <= direction <= 1,
    ensures
        -1 <= slice_direction_after(direction, event) <= 1,
{
}

/// Releasing any key stops the slice.
pub proof fn law_release_stops(direction: int, key: Key)
    ensures
        slice_direction_after(direction, KeyInput { key, pressed: false }) == 0,
{
}

/// Only J and K start the slice moving; pressing another key keeps the direction.
pub proof fn law_only_slice_keys_start_motion(direction: int, event: KeyInput)
    requires
        event.pressed,
        !is_slice_key(event.key),
    ensures
        slice_direction_after(direction, event) == direction,
{
}

/// Every shape kind has its own shader code.
pub proof fn law_shape_codes_distinct(a: HypershapeType, b: HypershapeType)
    requires
        a != b,
    ensures
        shape_code(a) != shape_code(b),
{
}


/// Pressing K sets the slice moving towards +w and pressing J towards -w,
/// whatever direction it had before; the two presses undo each other's effect.
pub proof fn law_k_and_j_set_direction(direction: int)
    ensures
        slice_direction_after(direction, KeyInput { key: Key::KeyK, pressed: true }) == 1,
        slice_direction_after(direction, KeyInput { key: Key::KeyJ, pressed: true }) == -1,
        slice_direction_after(
            slice_direction_after(direction, KeyInput { key: Key::KeyJ, pressed: true }),
            KeyInput { key: Key::KeyK, pressed: true },
        ) == 1,
        slice_direction_after(
            slice_direction_after(direction, KeyInput { key: Key::KeyK, pressed: true }),
            KeyInput { key: Key::KeyJ, pressed: true },
        ) == -1,
{
}

} // verus!
