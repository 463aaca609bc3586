//! Cells of the grid.

use vstd::prelude::*;

use super::direction::Direction;

verus! {

/// A cell of the grid. `x` grows to the right and `y` grows downwards.
#[derive(Debug, Clone, Copy, PartialEq, Eq, Hash, Structural)]
pub struct Position {
    pub x: i16,
    pub y: i16,
}

impl Position {
    /// The coordinate that changes when travelling along `main_direction`.
    pub open spec fn spec_position_along(self, main_direction: Direction) -> i16 {
        if main_direction.spec_is_horizontal() {
            self.x
        } else {
            self.y
        }
    }

    #[verifier::when_used_as_spec(spec_position_along)]
    pub fn position_along(self, main_direction: Direction) -> (along: i16)
        ensures
            along == self.spec_position_along(main_direction),
    {
        match main_direction {
            Direction::Up | Direction::Down => self.y,
            Direction::Left | Direction::Right => self.x,
        }
    }
}

} // verus!
