//! The camera controller: which keys it listens to and the movement they ask for.
//!
//! The controller's speed, its accumulated mouse motion and the eye itself are
//! floating point and are kept by the caller; this module holds the key state
//! and turns it into a movement direction in the camera's local frame.

use vstd::prelude::*;

use crate::input::{Key, KeyInput};

verus! {

/// What the controller remembers of the keyboard.
#[derive(Clone, Copy, Debug, PartialEq, Eq, Structural)]
pub struct CameraInputs {
    /// Left shift is held: mouse motion turns the camera.
    pub look_around: bool,
    /// W is held.
    pub forward: bool,
    /// S is held.
    pub backward: bool,
    /// A is held.
    pub left: bool,
    /// D is held.
    pub right: bool,
}

/// Whether the camera controller consumes events for `key`.
pub open spec fn is_camera_key(key: Key) -> bool {
    match key {
        Key::ShiftLeft | Key::KeyW | Key::KeyS | Key::KeyA | Key::KeyD => true,
        _ => false,
    }
}

impl CameraInputs {
    /// The state after `event` has been seen: the flag of the event's key
    /// takes the event's pressed state; other keys change nothing.
    pub open spec fn after(self, event: KeyInput) -> CameraInputs {
        match event.key {
            Key::ShiftLeft => CameraInputs { look_around: event.pressed, ..self },
            Key::KeyW => CameraInputs { forward: event.pressed, ..self },
            Key::KeyS => CameraInputs { backward: event.pressed, ..self },
            Key::KeyA => CameraInputs { left: event.pressed, ..self },
            Key::KeyD => CameraInputs { right: event.pressed, ..self },
            _ => self,
        }
    }

    /// Whether `key` is currently held, as far as the controller knows.
    pub open spec fn holds(self, key: Key) -> bool {
        match key {
            Key::ShiftLeft => self.look_around,
            Key::KeyW => self.forward,
            Key::KeyS => self.backward,
            Key::KeyA => self.left,
            Key::KeyD => self.right,
            _ => false,
        }
    }

    /// The local x (right) component of the movement asked for.
    pub open spec fn move_x(self) -> int {
        (if self.right { 1int } else { 0int }) - (if self.left { 1int } else { 0int })
    }

    /// The local z component of the movement asked for (the camera looks down -z).
    pub open spec fn move_z(self) -> int {
        (if self.backward { 1int } else { 0int }) - (if self.forward { 1int } else { 0int })
    }
}

/// A movement direction in the camera's local frame, before normalisation.
#[derive(Clone, Copy, Debug, PartialEq, Eq, Structural)]
pub struct MoveDirection {
    pub x: i8,
    pub z: i8,
}

/// Keyboard state of the camera: look-around toggle and the four movement keys.
pub struct CameraController {
    look_around: bool,
    /// Held state of W, S, A, D, in this order.
    direction_inputs: [bool; 4],
}

impl View for CameraController {
    type V = CameraInputs;

    closed spec fn view(&self) -> CameraInputs {
        CameraInputs {
            look_around: self.look_around,
            forward: self.direction_inputs@[0],
            backward: self.direction_inputs@[1],
            left: self.direction_inputs@[2],
            right: self.direction_inputs@[3],
        }
    }
}

impl CameraController {
    /// A controller with no key held.
    pub fn new() -> (controller: CameraController)
        ensures
            controller@ == (CameraInputs {
                look_around: false,
                forward: false,
                backward: false,
                left: false,
                right: false,
            }),
    {
        let controller = CameraController { look_around: false, direction_inputs: [false; 4] };
        assert(controller.direction_inputs@[0] == false);
        assert(controller.direction_inputs@[1] == false);
        assert(controller.direction_inputs@[2] == false);
        assert(controller.direction_inputs@[3] == false);
        controller
    }

    /// Records a key transition. Returns whether the key is one the camera
    /// listens to (left shift, W, S, A, D); for any other key nothing changes.
    pub fn process_input_events(&mut self, event: &KeyInput) -> (handled: bool)
        ensures
            handled == is_camera_key(event.key),
            final(self)@ == old(self)@.after(*event),
    {
        let is_pressed = event.pressed;
        match event.key {
            Key::ShiftLeft => {
                self.look_around = is_pressed;
                true
            },
            Key::KeyW => {
                self.direction_inputs[0] = is_pressed;
                true
            },
            Key::KeyS => {
                self.direction_inputs[1] = is_pressed;
                true
            },
            Key::KeyA => {
                self.direction_inputs[2] = is_pressed;
                true
            },
            Key::KeyD => {
                self.direction_inputs[3] = is_pressed;
                true
            },
            _ => false,
        }
    }

    /// Whether mouse motion is to be accumulated: only while left shift is held.
    pub fn accepts_mouse_delta(&self) -> (accepts: bool)
        ensures
            accepts == self@.look_around,
    {
        self.look_around
    }

    /// The movement asked for by the held keys: W moves along -z, S along +z,
    /// A along -x, D along +x; opposite keys cancel.
    pub fn local_move_direction(&self) -> (direction: MoveDirection)
        ensures
            direction.x == self@.move_x(),
            direction.z == self@.move_z(),
    {
        let mut x: i8 = 0;
        let mut z: i8 = 0;
        if self.direction_inputs[0] {
            z = z - 1;
        }
        if self.direction_inputs[1] {
            z = z + 1;
        }
        if self.direction_inputs[2] {
            x = x - 1;
        }
        if self.direction_inputs[3] {
            x = x + 1;
        }
        MoveDirection { x, z }
    }
}


/// A key the camera does not listen to leaves the controller's state as it was.
pub proof fn law_other_keys_change_nothing(state: CameraInputs, event: KeyInput)
    requires
        !is_camera_key(event.key),
    ensures
        state.after(event) == state,
{
}

/// After a transition of a camera key, that key is held exactly when the
/// transition was a press.
pub proof fn law_key_held_after_press(state: CameraInputs, event: KeyInput)
    requires
        is_camera_key(event.key),
    ensures
        state.after(event).holds(event.key) == event.pressed,
{
}

/// Seeing the same transition twice is the same as seeing it once.
pub proof fn law_repeated_event_is_idempotent(state: CameraInputs, event: KeyInput)
    ensures
        state.after(event).after(event) == state.after(event),
{
}

/// Of two transitions of the same key, only the last one counts.
pub proof fn law_last_transition_wins(state: CameraInputs, key: Key, first: bool, second: bool)
    ensures
        state.after(KeyInput { key, pressed: first }).after(KeyInput { key, pressed: second })
            == state.after(KeyInput { key, pressed: second }),
{
}

/// Releasing a key that was pressed while up gives back the state before the press.
pub proof fn law_release_undoes_press(state: CameraInputs, key: Key)
    requires
        !state.holds(key),
    ensures
        state.after(KeyInput { key, pressed: true }).after(KeyInput { key, pressed: false })
            == state,
{
}

/// Transitions of different keys can be seen in either order.
pub proof fn law_different_keys_commute(state: CameraInputs, a: KeyInput, b: KeyInput)
    requires
        a.key != b.key,
    ensures
        state.after(a).after(b) == state.after(b).after(a),
{
}

/// Each component of the movement is -1, 0 or 1, and the camera stands still
/// exactly when W and S agree and A and D agree.
pub proof fn law_movement_is_unit_and_cancels(state: CameraInputs)
    ensures
        -1 <= state.move_x() <= 1,
        -1 <= state.move_z() <= 1,
        (state.move_x() == 0 && state.move_z() == 0) <==> (state.forward == state.backward
            && state.left == state.right),
{
}

} // verus!
