//! The components that stand on cells and react to pellets.

use vstd::prelude::*;

use super::colors::Category;
use super::direction::{lemma_ordered_of_small_sets, Direction, DirectionSet};
use super::pellet::Pellet;
use crate::sound::{Pitch, Sound, Type};

verus! {

/// What stands on a cell, with the state it keeps between pellets.
#[derive(Debug, Clone, Copy, PartialEq, Eq, Structural)]
pub enum Component {
    /// Sends out one pellet in `direction` on every beat.
    Emitter { direction: Direction },
    /// Turns each pellet a quarter turn clockwise.
    RightTurn,
    /// Sends each pellet on in the direction that follows the last one
    /// clockwise, but never back where the pellet came from.
    Alternator { current_direction: Direction },
    /// Reports each pellet and swallows it.
    Debug,
    /// Lets each pellet through with its pitch raised by `current`, which
    /// then goes up by one and wraps after [`Pitch::MAX`].
    IncrementPitch { current: u8 },
    /// Swallows each pellet and sounds at its pitch.
    Guitar,
    /// Swallows each pellet.
    Consumer,
    /// Lets every other pellet through: `state` tells whether the last one
    /// passed.
    Half { state: bool },
}

/// The direction an alternator starts from when none is given.
pub fn default_direction() -> (direction: Direction)
    ensures
        direction == Direction::Up,
{
    Direction::Up
}

/// What a component answers to a pellet.
#[derive(Debug, Clone, Copy, PartialEq, Eq, Structural)]
pub struct ShouldEmit {
    /// The sound to play, if any.
    pub sound: Option<Sound>,
    /// The pitch of every pellet that leaves.
    pub pitch: Pitch,
    /// A pellet leaves in each of these directions; none means that the
    /// incoming pellet was swallowed.
    pub directions: DirectionSet,
}

impl ShouldEmit {
    /// The answer that plays `sound` and sends nothing on.
    pub open spec fn spec_sound(sound: Sound) -> ShouldEmit {
        ShouldEmit {
            sound: Some(sound),
            pitch: Pitch::spec_new(0),
            directions: DirectionSet::spec_empty(),
        }
    }

    /// The answer that sends one silent pellet of pitch `pitch` on in each
    /// of `directions`.
    pub open spec fn silent(pitch: Pitch, directions: DirectionSet) -> ShouldEmit {
        ShouldEmit { sound: None, pitch, directions }
    }

    fn sound(sound: Sound) -> (answer: ShouldEmit)
        ensures
            answer == ShouldEmit::spec_sound(sound),
    {
        Self { sound: Some(sound), pitch: Pitch::new(0), directions: DirectionSet::empty() }
    }
}

impl Component {
    /// The state is one the component can reach: a pitch counter stays on
    /// the scale.
    pub open spec fn wf(self) -> bool {
        match self {
            Component::IncrementPitch { current } => current <= Pitch::MAX,
            _ => true,
        }
    }

    /// The direction in which an alternator that last sent a pellet towards
    /// `current` sends one that arrives travelling in `arrival`: the next
    /// one clockwise, or the one after it where that would send the pellet
    /// straight back.
    pub open spec fn alternate(current: Direction, arrival: Direction) -> Direction {
        if current.spec_rotate90() == arrival.spec_flip() {
            current.spec_rotate90().spec_rotate90()
        } else {
            current.spec_rotate90()
        }
    }

    /// The state of the component after `pellet` has reached it.
    pub open spec fn after_pellet(self, pellet: Pellet) -> Component {
        match self {
            Component::Alternator { current_direction } => Component::Alternator {
                current_direction: Component::alternate(current_direction, pellet.direction),
            },
            Component::IncrementPitch { current } => Component::IncrementPitch {
                current: ((current + 1) % (Pitch::MAX + 1)) as u8,
            },
            Component::Half { state } => Component::Half { state: !state },
            _ => self,
        }
    }

    /// What the component answers to `pellet`.
    pub open spec fn answer_to(self, pellet: Pellet) -> ShouldEmit {
        match self {
            Component::Emitter { .. } | Component::Consumer | Component::Debug => ShouldEmit::silent(
                pellet.pitch,
                DirectionSet::spec_empty(),
            ),
            Component::RightTurn => ShouldEmit::silent(
                pellet.pitch,
                DirectionSet::spec_only(pellet.direction.spec_rotate90()),
            ),
            Component::Alternator { current_direction } => ShouldEmit::silent(
                pellet.pitch,
                DirectionSet::spec_only(Component::alternate(current_direction, pellet.direction)),
            ),
            Component::IncrementPitch { current } => ShouldEmit::silent(
                pellet.pitch.spec_increment_by(current),
                DirectionSet::spec_only(pellet.direction),
            ),
            Component::Guitar => ShouldEmit::spec_sound(
                Sound { pitch: pellet.pitch, ty: Type::Guitar },
            ),
            Component::Half { state } => ShouldEmit::silent(
                pellet.pitch,
                if state {
                    DirectionSet::spec_empty()
                } else {
                    DirectionSet::spec_only(pellet.direction)
                },
            ),
        }
    }

    /// The directions in which the component sends a pellet on the beat.
    pub open spec fn spec_on_emit(self) -> DirectionSet {
        match self {
            Component::Emitter { direction } => DirectionSet::spec_only(direction),
            _ => DirectionSet::spec_empty(),
        }
    }

    pub open spec fn spec_category(self) -> Category {
        match self {
            Component::Alternator { .. } | Component::Half { .. } | Component::RightTurn => {
                Category::Routing
            },
            Component::Debug => Category::Debug,
            Component::IncrementPitch { .. } => Category::Scale,
            Component::Guitar => Category::Instrument,
            Component::Consumer | Component::Emitter { .. } => Category::Emitter,
        }
    }

    /// The name under which the component is offered.
    pub open spec fn spec_name(self) -> Seq<char> {
        match self {
            Component::Emitter { .. } => "Emitter"@,
            Component::Consumer => "Consumer"@,
            Component::Alternator { .. } => "Alternator"@,
            Component::Guitar => "Guitar"@,
            Component::Debug => "Super Secret Debug Component"@,
            Component::RightTurn => "Right Turn"@,
            Component::IncrementPitch { .. } => "Rising Pitch"@,
            Component::Half { .. } => "Half"@,
        }
    }

    /// The components that are offered for placing, each in its first state.
    pub open spec fn spec_palette_list() -> Seq<Component> {
        seq![
            Component::Emitter { direction: Direction::Up },
            Component::Consumer,
            Component::RightTurn,
            Component::Alternator { current_direction: Direction::Up },
            Component::IncrementPitch { current: 0 },
            Component::Guitar,
            Component::Half { state: false },
        ]
    }

    pub fn palette_list() -> (list: Vec<Component>)
        ensures
            list@ == Component::spec_palette_list(),
    {
        let mut list: Vec<Component> = Vec::new();
        list.push(Self::Emitter { direction: Direction::Up });
        list.push(Self::Consumer);
        list.push(Self::RightTurn);
        list.push(Self::Alternator { current_direction: default_direction() });
        list.push(Self::IncrementPitch { current: 0 });
        list.push(Self::Guitar);
        list.push(Self::Half { state: false });
        list
    }

    /// Tells whether the state is one the component can reach.
    pub fn is_wf(self) -> (valid: bool)
        ensures
            valid == self.wf(),
    {
        match self {
            Self::IncrementPitch { current } => current <= Pitch::MAX,
            _ => true,
        }
    }

    /// Lets `pellet` act on the component, and says what leaves it.
    pub fn on_pellet(&mut self, pellet: Pellet) -> (answer: ShouldEmit)
        ensures
            answer == old(self).answer_to(pellet),
            *final(self) == old(self).after_pellet(pellet),
    {
        let directions = match self {
            Self::Emitter { .. } => DirectionSet::empty(),
            Self::Consumer { .. } => DirectionSet::empty(),
            Self::RightTurn => DirectionSet::only(pellet.direction().rotate90()),
            Self::Alternator { current_direction } => {
                *current_direction = current_direction.rotate90();
                if *current_direction == pellet.direction().flip() {
                    *current_direction = current_direction.rotate90();
                }
                DirectionSet::only(*current_direction)
            },
            Self::Debug => DirectionSet::empty(),
            Self::IncrementPitch { current } => {
                let ret = ShouldEmit {
                    sound: None,
                    pitch: pellet.pitch.increment_by(*current),
                    directions: DirectionSet::only(pellet.direction()),
                };
                *current = ((*current as u16 + 1) % (Pitch::MAX as u16 + 1)) as u8;
                return ret;
            },
            Self::Guitar => {
                return ShouldEmit::sound(Sound { pitch: pellet.pitch, ty: Type::Guitar })
            },
            Self::Half { state } => {
                *state = !*state;
                if *state {
                    DirectionSet::only(pellet.direction())
                } else {
                    DirectionSet::empty()
                }
            },
        };

        ShouldEmit { sound: None, pitch: pellet.pitch, directions }
    }

    /// Asks the component what it sends out on the beat.
    pub fn on_emit(&mut self) -> (directions: DirectionSet)
        ensures
            directions == old(self).spec_on_emit(),
            *final(self) == *old(self),
    {
        match self {
            Self::Emitter { direction } => DirectionSet::only(*direction),
            _ => DirectionSet::empty(),
        }
    }

    #[verifier::when_used_as_spec(spec_category)]
    pub fn category(self) -> (category: Category)
        ensures
            category == self.spec_category(),
    {
        match self {
            Component::Alternator { .. } | Component::Half { .. } | Component::RightTurn => {
                Category::Routing
            },
            Component::Debug => Category::Debug,
            Component::IncrementPitch { .. } => Category::Scale,
            Component::Guitar => Category::Instrument,
            Component::Consumer | Component::Emitter { .. } => Category::Emitter,
        }
    }

    pub fn name(self) -> (name: &'static str)
        ensures
            name@ == self.spec_name(),
    {
        match self {
            Self::Emitter { .. } => "Emitter",
            Self::Consumer => "Consumer",
            Self::Alternator { .. } => "Alternator",
            Self::Guitar => "Guitar",
            Self::Debug => "Super Secret Debug Component",
            Self::RightTurn => "Right Turn",
            Self::IncrementPitch { .. } => "Rising Pitch",
            Self::Half { .. } => "Half",
        }
    }
}

/// A component whose state can be reached stays in such a state.
pub proof fn lemma_after_pellet_wf(component: Component, pellet: Pellet)
    requires
        component.wf(),
    ensures
        component.after_pellet(pellet).wf(),
{
}

/// A right turn sends each pellet on a quarter turn clockwise from the
/// direction it came in, with its pitch, and makes no sound: one that
/// travels right leaves downwards, one that travels left leaves upwards.
pub proof fn lemma_right_turn(pellet: Pellet)
    ensures
        Component::RightTurn.answer_to(pellet) == ShouldEmit::silent(
            pellet.pitch,
            DirectionSet::spec_only(pellet.direction.spec_rotate90()),
        ),
        Component::RightTurn.answer_to(pellet).directions.ordered() == seq![
            pellet.direction.spec_rotate90(),
        ],
        pellet.direction == Direction::Right ==> pellet.direction.spec_rotate90()
            == Direction::Down,
        pellet.direction == Direction::Left ==> pellet.direction.spec_rotate90() == Direction::Up,
        Component::RightTurn.after_pellet(pellet) == Component::RightTurn,
{
    lemma_ordered_of_small_sets(pellet.direction.spec_rotate90());
}

/// An alternator sends each pellet on in one direction, which it keeps as
/// its state: the next clockwise from its last one, or the one after that,
/// and never the one that leads straight back.
pub proof fn lemma_alternator_never_sends_back(current_direction: Direction, pellet: Pellet)
    ensures
        ({
            let alternator = Component::Alternator { current_direction };
            let next = Component::alternate(current_direction, pellet.direction);
            &&& alternator.answer_to(pellet).directions.ordered() == seq![next]
            &&& alternator.after_pellet(pellet) == Component::Alternator {
                current_direction: next,
            }
            &&& next != pellet.direction.spec_flip()
            &&& next == current_direction.spec_rotate90() || next == current_direction.spec_flip()
            &&& next != current_direction
        }),
{
    lemma_ordered_of_small_sets(Component::alternate(current_direction, pellet.direction));
}

/// Of two pellets that reach a half one after the other, one is sent on
/// unchanged and one is swallowed without a sound: the first is sent on
/// where the last one before it was not, the second where it was. After
/// the two the half is as it was before.
pub proof fn lemma_half_sends_every_other(state: bool, first: Pellet, second: Pellet)
    ensures
        ({
            let half = Component::Half { state };
            let to_first = half.answer_to(first);
            let to_second = half.after_pellet(first).answer_to(second);
            &&& to_first.sound is None && to_second.sound is None
            &&& to_first.directions.ordered() == if state {
                Seq::<Direction>::empty()
            } else {
                seq![first.direction]
            }
            &&& to_second.directions.ordered() == if state {
                seq![second.direction]
            } else {
                Seq::<Direction>::empty()
            }
            &&& to_first.pitch == first.pitch && to_second.pitch == second.pitch
            &&& to_first.directions.ordered().len() + to_second.directions.ordered().len() == 1
            &&& half.after_pellet(first).after_pellet(second) == half
        }),
{
    lemma_ordered_of_small_sets(first.direction);
    lemma_ordered_of_small_sets(second.direction);
}

/// A guitar answers each pellet with one sound at the pellet's pitch and
/// sends nothing on.
pub proof fn lemma_guitar_sounds(pellet: Pellet)
    ensures
        Component::Guitar.answer_to(pellet).sound == Some(
            Sound { pitch: pellet.pitch, ty: Type::Guitar },
        ),
        Component::Guitar.answer_to(pellet).directions.ordered() == Seq::<Direction>::empty(),
        Component::Guitar.after_pellet(pellet) == Component::Guitar,
{
    lemma_ordered_of_small_sets(pellet.direction);
}

/// A pitch raiser sends each pellet straight on, higher by the pellets it
/// has seen since it last started over, and counts it.
pub proof fn lemma_increment_pitch(current: u8, pellet: Pellet)
    requires
        current <= Pitch::MAX,
    ensures
        ({
            let raiser = Component::IncrementPitch { current };
            &&& raiser.answer_to(pellet).sound is None
            &&& raiser.answer_to(pellet).directions.ordered() == seq![pellet.direction]
            &&& raiser.answer_to(pellet).pitch == pellet.pitch.spec_increment_by(current)
            &&& raiser.after_pellet(pellet) == Component::IncrementPitch {
                current: if current == Pitch::MAX {
                    0
                } else {
                    (current + 1) as u8
                },
            }
        }),
{
    lemma_ordered_of_small_sets(pellet.direction);
}

/// Only emitters send pellets out on the beat, and they send one.
pub proof fn lemma_only_emitters_emit(component: Component)
    ensures
        component.spec_on_emit().ordered() == match component {
            Component::Emitter { direction } => seq![direction],
            _ => Seq::<Direction>::empty(),
        },
{
    lemma_ordered_of_small_sets(Direction::Up);
    if let Component::Emitter { direction } = component {
        lemma_ordered_of_small_sets(direction);
    }
}

} // verus!
