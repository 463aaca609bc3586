use hanlon::project::{Component, ComponentMap, Direction, Position};

fn sorted(mut entries: Vec<(Position, Component)>) -> Vec<(Position, Component)> {
    entries.sort_by_key(|entry| (entry.0.x, entry.0.y));
    entries
}

#[test]
fn new_map_is_empty() {
    let map = ComponentMap::new();
    assert_eq!(map.to_vec(), Vec::<(Position, Component)>::new());
    assert_eq!(map.get(Position { x: 0, y: 0 }), None);
}

#[test]
fn insert_puts_a_component_on_its_cell() {
    let mut map = ComponentMap::new();
    assert_eq!(map.insert(Position { x: 1, y: 2 }, Component::Guitar), None);
    assert_eq!(map.get(Position { x: 1, y: 2 }), Some(Component::Guitar));
    assert_eq!(map.get(Position { x: 2, y: 1 }), None);
    assert_eq!(map.get(Position { x: 1, y: -2 }), None);
    assert_eq!(map.get(Position { x: -1, y: 2 }), None);
}

#[test]
fn insert_on_a_taken_cell_hands_back_what_stood_there() {
    let mut map = ComponentMap::new();
    let at = Position { x: -3, y: 8 };
    assert_eq!(map.insert(at, Component::Guitar), None);
    assert_eq!(map.insert(at, Component::Consumer), Some(Component::Guitar));
    assert_eq!(map.get(at), Some(Component::Consumer));
    assert_eq!(map.to_vec(), vec![(at, Component::Consumer)]);
}

#[test]
fn remove_clears_the_cell() {
    let mut map = ComponentMap::new();
    let at = Position { x: 7, y: 7 };
    map.insert(at, Component::RightTurn);
    map.insert(Position { x: 7, y: 8 }, Component::Guitar);
    assert_eq!(map.remove(at), Some(Component::RightTurn));
    assert_eq!(map.get(at), None);
    assert_eq!(map.remove(at), None);
    assert_eq!(map.to_vec(), vec![(Position { x: 7, y: 8 }, Component::Guitar)]);
}

#[test]
fn cells_at_the_edges_of_the_grid_are_told_apart() {
    let mut map = ComponentMap::new();
    let corners = [
        (Position { x: i16::MIN, y: i16::MIN }, Component::Guitar),
        (Position { x: i16::MIN, y: i16::MAX }, Component::Consumer),
        (Position { x: i16::MAX, y: i16::MIN }, Component::RightTurn),
        (Position { x: i16::MAX, y: i16::MAX }, Component::Debug),
        (Position { x: 0, y: -1 }, Component::Half { state: true }),
        (Position { x: -1, y: 0 }, Component::IncrementPitch { current: 3 }),
        (Position { x: 0, y: 0 }, Component::Emitter { direction: Direction::Left }),
    ];
    for (at, component) in corners {
        assert_eq!(map.insert(at, component), None);
    }
    for (at, component) in corners {
        assert_eq!(map.get(at), Some(component));
    }
    assert_eq!(sorted(map.to_vec()), sorted(corners.to_vec()));
}

#[test]
fn to_vec_lists_every_cell_once() {
    let mut map = ComponentMap::new();
    let mut expected = Vec::new();
    for x in -5..5i16 {
        for y in -5..5i16 {
            let at = Position { x, y };
            let component = Component::IncrementPitch { current: (x + y).rem_euclid(8) as u8 };
            map.insert(at, component);
            expected.push((at, component));
        }
    }
    let listed = map.to_vec();
    assert_eq!(listed.len(), 100);
    assert_eq!(sorted(listed), sorted(expected));
}
