use manifold::camera::{CameraController, MoveDirection};
use manifold::input::{Key, KeyInput};

fn press(key: Key) -> KeyInput {
    KeyInput { key, pressed: true }
}

fn release(key: Key) -> KeyInput {
    KeyInput { key, pressed: false }
}

#[test]
fn new_controller_is_still_and_ignores_mouse() {
    let controller = CameraController::new();
    assert!(!controller.accepts_mouse_delta());
    assert_eq!(controller.local_move_direction(), MoveDirection { x: 0, z: 0 });
}

#[test]
fn movement_keys_are_handled() {
    let mut controller = CameraController::new();
    for key in [Key::ShiftLeft, Key::KeyW, Key::KeyS, Key::KeyA, Key::KeyD] {
        assert!(controller.process_input_events(&press(key)));
    }
}

#[test]
fn other_keys_are_not_handled_and_change_nothing() {
    let mut controller = CameraController::new();
    for key in [Key::Escape, Key::KeyJ, Key::KeyK, Key::Other] {
        assert!(!controller.process_input_events(&press(key)));
    }
    assert!(!controller.accepts_mouse_delta());
    assert_eq!(controller.local_move_direction(), MoveDirection { x: 0, z: 0 });
}

#[test]
fn forward_moves_along_negative_z() {
    let mut controller = CameraController::new();
    controller.process_input_events(&press(Key::KeyW));
    assert_eq!(controller.local_move_direction(), MoveDirection { x: 0, z: -1 });
}

#[test]
fn backward_and_right_move_diagonally() {
    let mut controller = CameraController::new();
    controller.process_input_events(&press(Key::KeyS));
    controller.process_input_events(&press(Key::KeyD));
    assert_eq!(controller.local_move_direction(), MoveDirection { x: 1, z: 1 });
}

#[test]
fn left_moves_along_negative_x() {
    let mut controller = CameraController::new();
    controller.process_input_events(&press(Key::KeyA));
    assert_eq!(controller.local_move_direction(), MoveDirection { x: -1, z: 0 });
}

#[test]
fn opposite_keys_cancel() {
    let mut controller = CameraController::new();
    for key in [Key::KeyW, Key::KeyS, Key::KeyA, Key::KeyD] {
        controller.process_input_events(&press(key));
    }
    assert_eq!(controller.local_move_direction(), MoveDirection { x: 0, z: 0 });
}

#[test]
fn release_undoes_press() {
    let mut controller = CameraController::new();
    controller.process_input_events(&press(Key::KeyW));
    controller.process_input_events(&release(Key::KeyW));
    assert_eq!(controller.local_move_direction(), MoveDirection { x: 0, z: 0 });
}

#[test]
fn repeated_press_is_idempotent() {
    let mut controller = CameraController::new();
    controller.process_input_events(&press(Key::KeyD));
    controller.process_input_events(&press(Key::KeyD));
    assert_eq!(controller.local_move_direction(), MoveDirection { x: 1, z: 0 });
    controller.process_input_events(&release(Key::KeyD));
    assert_eq!(controller.local_move_direction(), MoveDirection { x: 0, z: 0 });
}

#[test]
fn shift_toggles_mouse_look() {
    let mut controller = CameraController::new();
    controller.process_input_events(&press(Key::ShiftLeft));
    assert!(controller.accepts_mouse_delta());
    assert_eq!(controller.local_move_direction(), MoveDirection { x: 0, z: 0 });
    controller.process_input_events(&release(Key::ShiftLeft));
    assert!(!controller.accepts_mouse_delta());
}
