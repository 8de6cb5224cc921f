use manifold::hypershape::{HyperManager, HypershapeType};
use manifold::input::{Key, KeyInput};

#[test]
fn default_shape_is_sphere() {
    assert_eq!(HypershapeType::default(), HypershapeType::Sphere);
}

#[test]
fn shape_codes() {
    assert_eq!(HypershapeType::Sphere.code(), 0);
    assert_eq!(HypershapeType::Box.code(), 1);
    assert_eq!(HypershapeType::Torus.code(), 2);
}

#[test]
fn slice_starts_at_rest() {
    assert_eq!(HyperManager::new().movement_direction(), 0);
}

#[test]
fn k_moves_forward_and_j_backward() {
    let mut manager = HyperManager::new();
    manager.handle_slice_movement(&KeyInput { key: Key::KeyK, pressed: true });
    assert_eq!(manager.movement_direction(), 1);
    manager.handle_slice_movement(&KeyInput { key: Key::KeyJ, pressed: true });
    assert_eq!(manager.movement_direction(), -1);
}

#[test]
fn any_release_stops_the_slice() {
    let mut manager = HyperManager::new();
    manager.handle_slice_movement(&KeyInput { key: Key::KeyK, pressed: true });
    manager.handle_slice_movement(&KeyInput { key: Key::Other, pressed: false });
    assert_eq!(manager.movement_direction(), 0);
}

#[test]
fn other_key_press_keeps_direction() {
    let mut manager = HyperManager::new();
    manager.handle_slice_movement(&KeyInput { key: Key::KeyJ, pressed: true });
    manager.handle_slice_movement(&KeyInput { key: Key::KeyW, pressed: true });
    assert_eq!(manager.movement_direction(), -1);
}
