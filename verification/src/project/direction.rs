//! The four compass directions and small sets of them.

use vstd::prelude::*;

verus! {

/// A compass direction on the grid, listed clockwise from `Up`.
#[derive(Debug, Clone, Copy, PartialEq, Eq, Hash, Structural)]
pub enum Direction {
    Up,
    Right,
    Down,
    Left,
}

impl Direction {
    /// The place of the direction in the clockwise order that starts at `Up`.
    pub open spec fn index(self) -> int {
        match self {
            Direction::Up => 0,
            Direction::Right => 1,
            Direction::Down => 2,
            Direction::Left => 3,
        }
    }

    /// The direction at place `i` of the clockwise order, counted modulo four.
    pub open spec fn at_index(i: int) -> Direction {
        let k = i % 4;
        if k == 0 {
            Direction::Up
        } else if k == 1 {
            Direction::Right
        } else if k == 2 {
            Direction::Down
        } else {
            Direction::Left
        }
    }

    /// The direction turned clockwise by `quarters` quarter turns.
    pub open spec fn turned(self, quarters: int) -> Direction {
        Direction::at_index(self.index() + quarters)
    }

    pub open spec fn spec_is_horizontal(self) -> bool {
        self.index() % 2 == 1
    }

    pub open spec fn spec_rotate90(self) -> Direction {
        self.turned(1)
    }

    pub open spec fn spec_flip(self) -> Direction {
        self.turned(2)
    }

    /// Travel towards smaller coordinates: `Up` and `Left`.
    pub open spec fn spec_negative(self) -> bool {
        self == Direction::Up || self == Direction::Left
    }

    pub open spec fn spec_sign(self) -> i32 {
        if self.spec_negative() {
            -1i32
        } else {
            1i32
        }
    }

    /// The step of one cell in this direction, as `(x, y)`; `y` grows downwards.
    pub open spec fn spec_as_vec2(self) -> (i8, i8) {
        if self.spec_is_horizontal() {
            (self.spec_sign() as i8, 0i8)
        } else {
            (0i8, self.spec_sign() as i8)
        }
    }

    #[verifier::when_used_as_spec(spec_is_horizontal)]
    pub fn is_horizontal(self) -> (horizontal: bool)
        ensures
            horizontal == self.spec_is_horizontal(),
            horizontal <==> self == Direction::Left || self == Direction::Right,
    {
        match self {
            Self::Up | Self::Down => false,
            Self::Left | Self::Right => true,
        }
    }

    #[verifier::when_used_as_spec(spec_as_vec2)]
    pub fn as_vec2(self) -> (step: (i8, i8))
        ensures
            step == self.spec_as_vec2(),
    {
        match self {
            Self::Up => (0, -1),
            Self::Down => (0, 1),
            Self::Left => (-1, 0),
            Self::Right => (1, 0),
        }
    }

    #[verifier::when_used_as_spec(spec_rotate90)]
    pub fn rotate90(self) -> (turned: Direction)
        ensures
            turned == self.spec_rotate90(),
    {
        match self {
            Self::Up => Self::Right,
            Self::Right => Self::Down,
            Self::Down => Self::Left,
            Self::Left => Self::Up,
        }
    }

    #[verifier::when_used_as_spec(spec_flip)]
    pub fn flip(self) -> (opposite: Direction)
        ensures
            opposite == self.spec_flip(),
    {
        match self {
            Self::Up => Self::Down,
            Self::Down => Self::Up,
            Self::Left => Self::Right,
            Self::Right => Self::Left,
        }
    }

    #[verifier::when_used_as_spec(spec_negative)]
    pub fn negative(self) -> (negative: bool)
        ensures
            negative == self.spec_negative(),
    {
        match self {
            Self::Up | Self::Left => true,
            Self::Down | Self::Right => false,
        }
    }

    #[verifier::when_used_as_spec(spec_sign)]
    pub fn sign(self) -> (sign: i32)
        ensures
            sign == self.spec_sign(),
            sign == 1 || sign == -1,
    {
        if self.negative() {
            -1
        } else {
            1
        }
    }
}

/// Four quarter turns bring every direction back to itself.
pub proof fn lemma_rotate90_four_times(d: Direction)
    ensures
        d.spec_rotate90().spec_rotate90().spec_rotate90().spec_rotate90() == d,
{
}

/// Flipping twice brings every direction back to itself.
pub proof fn lemma_flip_twice(d: Direction)
    ensures
        d.spec_flip().spec_flip() == d,
{
}

/// A flip is two quarter turns.
pub proof fn lemma_flip_is_two_rotations(d: Direction)
    ensures
        d.spec_flip() == d.spec_rotate90().spec_rotate90(),
{
}

/// A quarter turn changes the axis of travel, a flip keeps it and reverses
/// the sign.
pub proof fn lemma_turns_and_axes(d: Direction)
    ensures
        d.spec_rotate90().spec_is_horizontal() == !d.spec_is_horizontal(),
        d.spec_flip().spec_is_horizontal() == d.spec_is_horizontal(),
        d.spec_flip().spec_sign() == -d.spec_sign(),
        d.spec_flip() != d,
        d.spec_rotate90() != d,
{
}

/// A set of directions.
#[derive(Debug, Clone, Copy, PartialEq, Eq, Structural)]
pub struct DirectionSet {
    pub up: bool,
    pub right: bool,
    pub down: bool,
    pub left: bool,
}

impl View for DirectionSet {
    type V = Set<Direction>;

    open spec fn view(&self) -> Set<Direction> {
        Set::new(|d: Direction| self.spec_contains(d))
    }
}

impl DirectionSet {
    pub open spec fn spec_contains(self, direction: Direction) -> bool {
        match direction {
            Direction::Up => self.up,
            Direction::Right => self.right,
            Direction::Down => self.down,
            Direction::Left => self.left,
        }
    }

    pub open spec fn spec_empty() -> DirectionSet {
        DirectionSet { up: false, right: false, down: false, left: false }
    }

    pub open spec fn spec_insert(self, direction: Direction) -> DirectionSet {
        match direction {
            Direction::Up => DirectionSet { up: true, ..self },
            Direction::Right => DirectionSet { right: true, ..self },
            Direction::Down => DirectionSet { down: true, ..self },
            Direction::Left => DirectionSet { left: true, ..self },
        }
    }

    pub open spec fn spec_only(direction: Direction) -> DirectionSet {
        DirectionSet::spec_empty().spec_insert(direction)
    }

    /// The members of the set from `Up` clockwise: the order in which the
    /// set is walked.
    pub open spec fn ordered(self) -> Seq<Direction> {
        let up = if self.up { seq![Direction::Up] } else { Seq::<Direction>::empty() };
        let right = if self.right { up.push(Direction::Right) } else { up };
        let down = if self.down { right.push(Direction::Down) } else { right };
        if self.left { down.push(Direction::Left) } else { down }
    }

    #[verifier::when_used_as_spec(spec_empty)]
    pub fn empty() -> (set: DirectionSet)
        ensures
            set == DirectionSet::spec_empty(),
            set@ == Set::<Direction>::empty(),
    {
        DirectionSet { up: false, right: false, down: false, left: false }
    }

    #[verifier::when_used_as_spec(spec_only)]
    pub fn only(direction: Direction) -> (set: DirectionSet)
        ensures
            set == DirectionSet::spec_only(direction),
            set@ == set![direction],
    {
        let mut set = DirectionSet::empty();
        set.insert(direction);
        set
    }

    /// Adds `direction` to the set.
    pub fn insert(&mut self, direction: Direction)
        ensures
            *final(self) == old(self).spec_insert(direction),
            final(self)@ == old(self)@.insert(direction),
    {
        match direction {
            Direction::Up => self.up = true,
            Direction::Right => self.right = true,
            Direction::Down => self.down = true,
            Direction::Left => self.left = true,
        }
    }

    #[verifier::when_used_as_spec(spec_contains)]
    pub fn contains(self, direction: Direction) -> (found: bool)
        ensures
            found == self.spec_contains(direction),
            found == self@.contains(direction),
    {
        match direction {
            Direction::Up => self.up,
            Direction::Right => self.right,
            Direction::Down => self.down,
            Direction::Left => self.left,
        }
    }

    /// The members of the set, from `Up` clockwise.
    pub fn to_vec(self) -> (members: Vec<Direction>)
        ensures
            members@ == self.ordered(),
    {
        let mut members: Vec<Direction> = Vec::new();
        if self.up {
            members.push(Direction::Up);
        }
        if self.right {
            members.push(Direction::Right);
        }
        if self.down {
            members.push(Direction::Down);
        }
        if self.left {
            members.push(Direction::Left);
        }
        members
    }
}

/// Walking a set visits each member once and nothing else.
pub proof fn lemma_ordered_lists_the_set(set: DirectionSet)
    ensures
        set.ordered().no_duplicates(),
        set.ordered().to_set() == set@,
        forall|d: Direction| set.ordered().contains(d) <==> set.spec_contains(d),
{
    let s = set.ordered();
    let up: int = if set.up { 1 } else { 0 };
    let right: int = if set.right { 1 } else { 0 };
    let down: int = if set.down { 1 } else { 0 };
    assert forall|d: Direction| s.contains(d) <==> set.spec_contains(d) by {
        if set.spec_contains(d) {
            let at = match d {
                Direction::Up => 0,
                Direction::Right => up,
                Direction::Down => up + right,
                Direction::Left => up + right + down,
            };
            assert(s[at] == d);
        }
    }
    assert(s.to_set() =~= set@);
}

/// Walking the empty set visits nothing, and walking a set of one
/// direction visits that direction.
pub proof fn lemma_ordered_of_small_sets(direction: Direction)
    ensures
        DirectionSet::spec_empty().ordered() == Seq::<Direction>::empty(),
        DirectionSet::spec_only(direction).ordered() == seq![direction],
{
    assert(DirectionSet::spec_only(direction).ordered() =~= seq![direction]);
}

} // verus!
