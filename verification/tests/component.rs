use hanlon::project::colors::Category;
use hanlon::project::component::{default_direction, ShouldEmit};
use hanlon::project::{Component, Direction, DirectionSet, Pellet, Position};
use hanlon::sound::{Pitch, Sound, Type};

const ALL: [Direction; 4] = [Direction::Up, Direction::Right, Direction::Down, Direction::Left];

fn arriving(direction: Direction, pitch: u8) -> Pellet {
    Pellet::new_at(Position { x: 2, y: 3 }, direction).with_pitch(Pitch::new(pitch))
}

fn silent(answer: &ShouldEmit) -> bool {
    answer.sound.is_none()
}

#[test]
fn right_turn_turns_clockwise() {
    let mut turn = Component::RightTurn;
    let answer = turn.on_pellet(arriving(Direction::Right, 4));
    assert_eq!(answer.directions.to_vec(), vec![Direction::Down]);
    assert_eq!(answer.pitch.semitones(), 4);
    assert!(silent(&answer));
    let answer = turn.on_pellet(arriving(Direction::Left, 1));
    assert_eq!(answer.directions.to_vec(), vec![Direction::Up]);
    let answer = turn.on_pellet(arriving(Direction::Up, 1));
    assert_eq!(answer.directions.to_vec(), vec![Direction::Right]);
    let answer = turn.on_pellet(arriving(Direction::Down, 1));
    assert_eq!(answer.directions.to_vec(), vec![Direction::Left]);
    assert_eq!(turn, Component::RightTurn);
}

#[test]
fn alternator_steps_clockwise() {
    let mut alternator = Component::Alternator { current_direction: Direction::Up };
    let answer = alternator.on_pellet(arriving(Direction::Down, 6));
    assert_eq!(answer.directions.to_vec(), vec![Direction::Right]);
    assert_eq!(answer.pitch.semitones(), 6);
    assert!(silent(&answer));
    assert_eq!(alternator, Component::Alternator { current_direction: Direction::Right });
}

#[test]
fn alternator_skips_the_way_back() {
    let mut alternator = Component::Alternator { current_direction: Direction::Left };
    let answer = alternator.on_pellet(arriving(Direction::Down, 0));
    assert_eq!(answer.directions.to_vec(), vec![Direction::Right]);
    assert_eq!(alternator, Component::Alternator { current_direction: Direction::Right });
}

#[test]
fn alternator_never_sends_a_pellet_back() {
    for start in ALL {
        for arrival in ALL {
            let mut alternator = Component::Alternator { current_direction: start };
            let answer = alternator.on_pellet(arriving(arrival, 0));
            let out = answer.directions.to_vec();
            assert_eq!(out.len(), 1);
            assert_ne!(out[0], arrival.flip());
            assert_ne!(out[0], start);
            let expected = if start.rotate90() == arrival.flip() {
                start.flip()
            } else {
                start.rotate90()
            };
            assert_eq!(out[0], expected);
            assert_eq!(alternator, Component::Alternator { current_direction: expected });
        }
    }
}

#[test]
fn alternator_goes_round_for_pellets_from_one_side() {
    let mut alternator = Component::Alternator { current_direction: Direction::Up };
    let mut seen = Vec::new();
    for _ in 0..6 {
        let answer = alternator.on_pellet(arriving(Direction::Right, 0));
        seen.push(answer.directions.to_vec()[0]);
    }
    assert_eq!(
        seen,
        vec![
            Direction::Right,
            Direction::Down,
            Direction::Up,
            Direction::Right,
            Direction::Down,
            Direction::Up
        ]
    );
}

#[test]
fn half_sends_every_other_pellet_on() {
    let mut half = Component::Half { state: false };
    let first = half.on_pellet(arriving(Direction::Left, 3));
    assert_eq!(first.directions.to_vec(), vec![Direction::Left]);
    assert_eq!(first.pitch.semitones(), 3);
    assert!(silent(&first));
    assert_eq!(half, Component::Half { state: true });
    let second = half.on_pellet(arriving(Direction::Up, 5));
    assert_eq!(second.directions.to_vec(), Vec::<Direction>::new());
    assert!(silent(&second));
    assert_eq!(half, Component::Half { state: false });
}

#[test]
fn half_that_has_just_sent_swallows_the_next() {
    let mut half = Component::Half { state: true };
    let first = half.on_pellet(arriving(Direction::Left, 3));
    assert_eq!(first.directions.to_vec(), Vec::<Direction>::new());
    let second = half.on_pellet(arriving(Direction::Up, 5));
    assert_eq!(second.directions.to_vec(), vec![Direction::Up]);
    assert_eq!(second.pitch.semitones(), 5);
    assert_eq!(half, Component::Half { state: true });
}

#[test]
fn half_sends_one_of_any_two() {
    for state in [false, true] {
        let mut half = Component::Half { state };
        let mut sent = 0;
        for _ in 0..2 {
            sent += half.on_pellet(arriving(Direction::Down, 0)).directions.to_vec().len();
        }
        assert_eq!(sent, 1);
    }
}

#[test]
fn guitar_sounds_at_the_pitch_of_the_pellet() {
    for pitch in 0..=7u8 {
        for direction in ALL {
            let mut guitar = Component::Guitar;
            let answer = guitar.on_pellet(arriving(direction, pitch));
            assert_eq!(answer.sound, Some(Sound { pitch: Pitch::new(pitch), ty: Type::Guitar }));
            assert_eq!(answer.directions, DirectionSet::empty());
            assert_eq!(answer.directions.to_vec(), Vec::<Direction>::new());
            assert_eq!(guitar, Component::Guitar);
        }
    }
}

#[test]
fn increment_pitch_raises_by_its_counter() {
    let mut raiser = Component::IncrementPitch { current: 0 };
    let expected = [2u8, 3, 4, 5, 6, 7, 0, 1, 2, 3];
    for (seen, want) in expected.iter().enumerate() {
        let answer = raiser.on_pellet(arriving(Direction::Right, 2));
        assert_eq!(answer.pitch.semitones(), *want);
        assert_eq!(answer.directions.to_vec(), vec![Direction::Right]);
        assert!(silent(&answer));
        assert_eq!(raiser, Component::IncrementPitch { current: ((seen + 1) % 8) as u8 });
    }
}

#[test]
fn increment_pitch_counter_wraps_after_seven() {
    let mut raiser = Component::IncrementPitch { current: 7 };
    let answer = raiser.on_pellet(arriving(Direction::Up, 7));
    assert_eq!(answer.pitch.semitones(), 6);
    assert_eq!(raiser, Component::IncrementPitch { current: 0 });
}

#[test]
fn increment_pitch_with_a_counter_off_the_scale_still_answers() {
    let mut raiser = Component::IncrementPitch { current: 255 };
    assert!(!raiser.is_wf());
    let answer = raiser.on_pellet(arriving(Direction::Up, 1));
    assert_eq!(answer.pitch.semitones(), 0);
    assert_eq!(raiser, Component::IncrementPitch { current: 0 });
    assert!(raiser.is_wf());
}

#[test]
fn consumer_emitter_and_debug_swallow_pellets() {
    for start in [
        Component::Consumer,
        Component::Debug,
        Component::Emitter { direction: Direction::Left },
    ] {
        let mut component = start;
        let answer = component.on_pellet(arriving(Direction::Down, 3));
        assert_eq!(answer.directions.to_vec(), Vec::<Direction>::new());
        assert!(silent(&answer));
        assert_eq!(answer.pitch.semitones(), 3);
        assert_eq!(component, start);
    }
}

#[test]
fn only_emitters_emit() {
    for direction in ALL {
        let mut emitter = Component::Emitter { direction };
        assert_eq!(emitter.on_emit().to_vec(), vec![direction]);
        assert_eq!(emitter, Component::Emitter { direction });
    }
    for start in [
        Component::Consumer,
        Component::Debug,
        Component::RightTurn,
        Component::Guitar,
        Component::Alternator { current_direction: Direction::Up },
        Component::IncrementPitch { current: 3 },
        Component::Half { state: true },
    ] {
        let mut component = start;
        assert_eq!(component.on_emit().to_vec(), Vec::<Direction>::new());
        assert_eq!(component, start);
    }
}

#[test]
fn each_component_has_its_family() {
    assert_eq!(Component::Emitter { direction: Direction::Up }.category(), Category::Emitter);
    assert_eq!(Component::Consumer.category(), Category::Emitter);
    assert_eq!(Component::RightTurn.category(), Category::Routing);
    assert_eq!(
        Component::Alternator { current_direction: Direction::Up }.category(),
        Category::Routing
    );
    assert_eq!(Component::Half { state: false }.category(), Category::Routing);
    assert_eq!(Component::IncrementPitch { current: 0 }.category(), Category::Scale);
    assert_eq!(Component::Guitar.category(), Category::Instrument);
    assert_eq!(Component::Debug.category(), Category::Debug);
}

#[test]
fn each_component_has_its_name() {
    assert_eq!(Component::Emitter { direction: Direction::Up }.name(), "Emitter");
    assert_eq!(Component::Consumer.name(), "Consumer");
    assert_eq!(Component::RightTurn.name(), "Right Turn");
    assert_eq!(Component::Alternator { current_direction: Direction::Up }.name(), "Alternator");
    assert_eq!(Component::Half { state: false }.name(), "Half");
    assert_eq!(Component::IncrementPitch { current: 0 }.name(), "Rising Pitch");
    assert_eq!(Component::Guitar.name(), "Guitar");
    assert_eq!(Component::Debug.name(), "Super Secret Debug Component");
}

#[test]
fn palette_list_offers_the_components_in_their_first_state() {
    assert_eq!(
        Component::palette_list(),
        vec![
            Component::Emitter { direction: Direction::Up },
            Component::Consumer,
            Component::RightTurn,
            Component::Alternator { current_direction: Direction::Up },
            Component::IncrementPitch { current: 0 },
            Component::Guitar,
            Component::Half { state: false },
        ]
    );
}

#[test]
fn default_direction_is_up() {
    assert_eq!(default_direction(), Direction::Up);
}

#[test]
fn only_a_counter_off_the_scale_is_ill_formed() {
    assert!(Component::IncrementPitch { current: 0 }.is_wf());
    assert!(Component::IncrementPitch { current: 7 }.is_wf());
    assert!(!Component::IncrementPitch { current: 8 }.is_wf());
    assert!(Component::Guitar.is_wf());
    assert!(Component::Half { state: true }.is_wf());
    assert!(Component::Emitter { direction: Direction::Down }.is_wf());
}
