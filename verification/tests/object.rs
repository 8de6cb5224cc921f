use manifold::object::ObjectManager;

fn names(manager: &ObjectManager<&'static str, u8>) -> Vec<&'static str> {
    manager.iter().into_iter().copied().collect()
}

#[test]
fn new_scene_holds_only_the_grid() {
    let manager = ObjectManager::new(7u8, "grid");
    assert_eq!(manager.bind_group_layout, 7);
    assert_eq!(names(&manager), vec!["grid"]);
}

#[test]
fn actors_are_drawn_before_the_grid_in_order() {
    let mut manager = ObjectManager::new(0u8, "grid");
    manager.add_actor("a");
    manager.add_actor("b");
    assert_eq!(names(&manager), vec!["a", "b", "grid"]);
}

#[test]
fn remove_actor_shifts_the_rest() {
    let mut manager = ObjectManager::new(0u8, "grid");
    manager.add_actor("a");
    manager.add_actor("b");
    manager.add_actor("c");
    manager.remove_actor(1);
    assert_eq!(names(&manager), vec!["a", "c", "grid"]);
}

#[test]
fn remove_undoes_add() {
    let mut manager = ObjectManager::new(0u8, "grid");
    manager.add_actor("a");
    manager.add_actor("b");
    manager.remove_actor(1);
    assert_eq!(names(&manager), vec!["a", "grid"]);
}

#[test]
fn object_mut_changes_one_object() {
    let mut manager = ObjectManager::new(0u8, "grid");
    manager.add_actor("a");
    *manager.object_mut(0) = "x";
    *manager.object_mut(1) = "floor";
    assert_eq!(names(&manager), vec!["x", "floor"]);
}
