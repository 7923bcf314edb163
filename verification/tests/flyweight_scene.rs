use patterns::structural::flyweight::CanvasLog;
use patterns::structural::flyweight::Forest;
use patterns::structural::flyweight::TreeFactory;

#[test]
fn resolving_same_attributes_twice_returns_same_handle() {
    let mut factory = TreeFactory::new();
    assert_eq!(factory.len(), 0);
    let h1 = factory.get_tree_type(
        "Maple".to_string(),
        (255, 0, 0, 255),
        "maple_texture.jpg".to_string(),
    );
    assert_eq!(factory.len(), 1);
    let h2 = factory.get_tree_type(
        "Maple".to_string(),
        (255, 0, 0, 255),
        "maple_texture.jpg".to_string(),
    );
    assert_eq!(factory.len(), 1);
    assert_eq!(h1, h2);
    let record = factory.record(h1);
    assert_eq!(record.name, "Maple");
    assert_eq!(record.color, (255, 0, 0, 255));
    assert_eq!(record.texture, "maple_texture.jpg");
}

#[test]
fn resolving_different_attributes_returns_distinct_handles() {
    let mut factory = TreeFactory::new();
    let h1 = factory.get_tree_type(
        "Maple".to_string(),
        (255, 0, 0, 255),
        "maple_texture.jpg".to_string(),
    );
    let h2 = factory.get_tree_type("Oak".to_string(), (0, 255, 0, 255), "oak.jpg".to_string());
    assert_ne!(h1, h2);
    assert_eq!(factory.len(), 2);
    // A single differing field is enough for a new record.
    let h3 = factory.get_tree_type(
        "Maple".to_string(),
        (255, 0, 0, 254),
        "maple_texture.jpg".to_string(),
    );
    assert_ne!(h1, h3);
    assert_eq!(factory.len(), 3);
}

#[test]
fn resolve_leaves_existing_records_untouched() {
    let mut factory = TreeFactory::new();
    let h1 = factory.get_tree_type(
        "Maple".to_string(),
        (255, 0, 0, 255),
        "maple_texture.jpg".to_string(),
    );
    let _h2 = factory.get_tree_type("Oak".to_string(), (0, 255, 0, 255), "oak.jpg".to_string());
    let record = factory.record(h1);
    assert_eq!(record.name, "Maple");
    assert_eq!(record.color, (255, 0, 0, 255));
    assert_eq!(record.texture, "maple_texture.jpg");
}

#[test]
fn two_placements_share_one_record() {
    let factory = TreeFactory::new();
    let mut forest = Forest::new(factory);
    forest.plant_trees(
        0,
        123,
        "Maple".to_string(),
        (255, 0, 0, 255),
        "maple_texture.jpg".to_string(),
    );
    forest.plant_trees(
        5,
        10,
        "Maple".to_string(),
        (255, 0, 0, 255),
        "maple_texture.jpg".to_string(),
    );
    assert_eq!(forest.type_count(), 1);
    assert_eq!(forest.tree_count(), 2);
}

#[test]
fn third_placement_with_new_attributes_adds_one_record() {
    let factory = TreeFactory::new();
    let mut forest = Forest::new(factory);
    forest.plant_trees(
        0,
        123,
        "Maple".to_string(),
        (255, 0, 0, 255),
        "maple_texture.jpg".to_string(),
    );
    forest.plant_trees(
        5,
        10,
        "Maple".to_string(),
        (255, 0, 0, 255),
        "maple_texture.jpg".to_string(),
    );
    forest.plant_trees(7, 9, "Oak".to_string(), (0, 255, 0, 255), "oak.jpg".to_string());
    assert_eq!(forest.type_count(), 2);
    assert_eq!(forest.tree_count(), 3);
}

#[test]
fn render_visits_placements_in_insertion_order() {
    let factory = TreeFactory::new();
    let mut forest = Forest::new(factory);
    forest.plant_trees(
        0,
        123,
        "Maple".to_string(),
        (255, 0, 0, 255),
        "maple_texture.jpg".to_string(),
    );
    forest.plant_trees(
        5,
        10,
        "Maple".to_string(),
        (255, 0, 0, 255),
        "maple_texture.jpg".to_string(),
    );
    forest.plant_trees(7, 9, "Oak".to_string(), (0, 255, 0, 255), "oak.jpg".to_string());
    let mut canvas = CanvasLog { points: Vec::new() };
    forest.draw(&mut canvas);
    assert_eq!(canvas.points, vec![(0, 123), (5, 10), (7, 9)]);
    // Drawing again appends the same positions once more, in the same order.
    forest.draw(&mut canvas);
    assert_eq!(canvas.points, vec![(0, 123), (5, 10), (7, 9), (0, 123), (5, 10), (7, 9)]);
}

#[test]
fn empty_forest_draws_nothing() {
    let factory = TreeFactory::new();
    let forest = Forest::new(factory);
    let mut canvas = CanvasLog { points: Vec::new() };
    forest.draw(&mut canvas);
    assert_eq!(canvas.points.len(), 0);
}
