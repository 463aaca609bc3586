use hanlon::project::{Direction, DirectionSet, Position};

const ALL: [Direction; 4] = [Direction::Up, Direction::Right, Direction::Down, Direction::Left];

#[test]
fn rotate90_cycles_through_the_compass() {
    assert_eq!(Direction::Up.rotate90(), Direction::Right);
    assert_eq!(Direction::Right.rotate90(), Direction::Down);
    assert_eq!(Direction::Down.rotate90(), Direction::Left);
    assert_eq!(Direction::Left.rotate90(), Direction::Up);
}

#[test]
fn four_rotations_give_the_direction_back() {
    for d in ALL {
        assert_eq!(d.rotate90().rotate90().rotate90().rotate90(), d);
    }
}

#[test]
fn flip_gives_the_opposite() {
    assert_eq!(Direction::Up.flip(), Direction::Down);
    assert_eq!(Direction::Down.flip(), Direction::Up);
    assert_eq!(Direction::Left.flip(), Direction::Right);
    assert_eq!(Direction::Right.flip(), Direction::Left);
}

#[test]
fn flip_twice_gives_the_direction_back() {
    for d in ALL {
        assert_eq!(d.flip().flip(), d);
    }
}

#[test]
fn flip_is_two_rotations() {
    for d in ALL {
        assert_eq!(d.flip(), d.rotate90().rotate90());
    }
}

#[test]
fn left_and_right_are_horizontal() {
    assert!(!Direction::Up.is_horizontal());
    assert!(Direction::Right.is_horizontal());
    assert!(!Direction::Down.is_horizontal());
    assert!(Direction::Left.is_horizontal());
}

#[test]
fn up_and_left_are_negative() {
    assert!(Direction::Up.negative());
    assert!(!Direction::Right.negative());
    assert!(!Direction::Down.negative());
    assert!(Direction::Left.negative());
}

#[test]
fn sign_is_positive_for_down_and_right() {
    assert_eq!(Direction::Up.sign(), -1);
    assert_eq!(Direction::Right.sign(), 1);
    assert_eq!(Direction::Down.sign(), 1);
    assert_eq!(Direction::Left.sign(), -1);
}

#[test]
fn unit_vectors_point_down_for_positive_y() {
    assert_eq!(Direction::Up.as_vec2(), (0, -1));
    assert_eq!(Direction::Right.as_vec2(), (1, 0));
    assert_eq!(Direction::Down.as_vec2(), (0, 1));
    assert_eq!(Direction::Left.as_vec2(), (-1, 0));
}

#[test]
fn empty_set_holds_nothing() {
    let set = DirectionSet::empty();
    assert_eq!(set.to_vec(), Vec::<Direction>::new());
    for d in ALL {
        assert!(!set.contains(d));
    }
}

#[test]
fn set_of_one_holds_that_one() {
    for d in ALL {
        let set = DirectionSet::only(d);
        assert_eq!(set.to_vec(), vec![d]);
        for other in ALL {
            assert_eq!(set.contains(other), other == d);
        }
    }
}

#[test]
fn set_is_walked_clockwise_from_up() {
    let mut set = DirectionSet::empty();
    set.insert(Direction::Left);
    set.insert(Direction::Down);
    set.insert(Direction::Up);
    assert_eq!(set.to_vec(), vec![Direction::Up, Direction::Down, Direction::Left]);
    set.insert(Direction::Right);
    set.insert(Direction::Down);
    assert_eq!(
        set.to_vec(),
        vec![Direction::Up, Direction::Right, Direction::Down, Direction::Left]
    );
}

#[test]
fn position_along_picks_the_axis_of_travel() {
    let pos = Position { x: 3, y: -7 };
    assert_eq!(pos.position_along(Direction::Up), -7);
    assert_eq!(pos.position_along(Direction::Down), -7);
    assert_eq!(pos.position_along(Direction::Left), 3);
    assert_eq!(pos.position_along(Direction::Right), 3);
}
