//! Pellets: the signals that travel over the grid.

use vstd::prelude::*;

use super::direction::Direction;
use super::position::Position;
use crate::sound::Pitch;

verus! {

/// How many units of a pellet's offset make one cell.
pub const OFFSET_FIXED_POINT_FACTOR: i32 = 10000;

/// The smallest offset at which a pellet is still on the grid.
pub const OFFSET_MIN: i32 = -327_680_000;

/// The largest offset at which a pellet is still on the grid.
pub const OFFSET_MAX: i32 = 327_670_000;

/// `value / unit`, rounded towards zero.
pub open spec fn div_toward_zero(value: int, unit: int) -> int
    recommends
        unit > 0,
{
    if value >= 0 {
        value / unit
    } else {
        -((-value) / unit)
    }
}

/// A signal travelling along one axis of the grid.
///
/// The coordinate along the axis of travel is kept as a fixed-point offset;
/// the other coordinate is that of the cell the pellet last left.
#[derive(Debug, Clone, Copy, PartialEq, Eq, Structural)]
pub struct Pellet {
    /// The direction of travel.
    pub direction: Direction,
    /// The coordinate along the axis of travel, in units of which
    /// [`OFFSET_FIXED_POINT_FACTOR`] make one cell.
    pub offset_along_direction: i32,
    /// The cell the pellet last left.
    pub origin: Position,
    pub pitch: Pitch,
}

impl Pellet {
    pub open spec fn spec_direction(self) -> Direction {
        self.direction
    }

    pub open spec fn spec_offset_along_direction(self) -> i32 {
        self.offset_along_direction
    }

    pub open spec fn spec_immune_pos(self) -> Position {
        self.origin
    }

    /// A pellet at rest on the cell `at`, about to leave it in `direction`.
    pub open spec fn spec_new_at(at: Position, direction: Direction) -> Pellet {
        Pellet {
            direction,
            offset_along_direction: (at.spec_position_along(direction)
                * OFFSET_FIXED_POINT_FACTOR) as i32,
            origin: at,
            pitch: Pitch::spec_new(0),
        }
    }

    pub open spec fn spec_with_pitch(self, pitch: Pitch) -> Pellet {
        Pellet { pitch, ..self }
    }

    /// The offset after travelling `amount` units in the pellet's direction:
    /// the amount is added for `Down` and `Right` and taken away for `Up`
    /// and `Left`.
    pub open spec fn advanced_offset(self, amount: i32) -> int {
        if self.direction.spec_negative() {
            self.offset_along_direction - amount
        } else {
            self.offset_along_direction + amount
        }
    }

    /// Whether the pellet can travel `amount` units without leaving the
    /// range of its offset.
    pub open spec fn spec_can_advance_by(self, amount: i32) -> bool {
        i32::MIN <= self.advanced_offset(amount) <= i32::MAX
    }

    /// The pellet after travelling `amount` units in its direction.
    pub open spec fn spec_advance_by(self, amount: i32) -> Pellet {
        Pellet { offset_along_direction: self.advanced_offset(amount) as i32, ..self }
    }

    /// The pellet after one tick of travel at `amount` units a tick, or
    /// nothing where the travel takes it off the grid.
    pub open spec fn after_tick(self, amount: i32) -> Option<Pellet> {
        if OFFSET_MIN <= self.advanced_offset(amount) <= OFFSET_MAX {
            Some(self.spec_advance_by(amount))
        } else {
            None
        }
    }

    /// The pellet after `ticks` steps of `amount` units each.
    pub open spec fn advanced_times(self, amount: i32, ticks: nat) -> Pellet
        decreases ticks,
    {
        if ticks == 0 {
            self
        } else {
            self.advanced_times(amount, (ticks - 1) as nat).spec_advance_by(amount)
        }
    }

    /// The pellet has left the grid.
    pub open spec fn spec_should_remove(self) -> bool {
        self.offset_along_direction < OFFSET_MIN || OFFSET_MAX
            < self.offset_along_direction
    }

    /// The coordinate of the pellet's cell along its axis of travel.
    pub open spec fn cell_along(self) -> int {
        div_toward_zero(self.offset_along_direction as int, OFFSET_FIXED_POINT_FACTOR as int)
    }

    /// The offset stands for a cell whose coordinate fits the grid.
    pub open spec fn has_cell(self) -> bool {
        i16::MIN <= self.cell_along() <= i16::MAX
    }

    /// The cell the pellet is on.
    pub open spec fn spec_pos_rounded(self) -> Position {
        if self.direction.spec_is_horizontal() {
            Position { x: self.cell_along() as i16, y: self.origin.y }
        } else {
            Position { x: self.origin.x, y: self.cell_along() as i16 }
        }
    }

    #[verifier::when_used_as_spec(spec_direction)]
    pub fn direction(self) -> (direction: Direction)
        ensures
            direction == self.direction,
    {
        self.direction
    }

    /// The fixed-point coordinate of the pellet along its axis of travel.
    #[verifier::when_used_as_spec(spec_offset_along_direction)]
    pub fn offset_along_direction(self) -> (offset: i32)
        ensures
            offset == self.offset_along_direction,
    {
        self.offset_along_direction
    }

    #[verifier::when_used_as_spec(spec_can_advance_by)]
    pub fn can_advance_by(self, amount: i32) -> (fits: bool)
        ensures
            fits == self.spec_can_advance_by(amount),
    {
        let step: i64 = if self.direction.negative() {
            -(amount as i64)
        } else {
            amount as i64
        };
        let next: i64 = self.offset_along_direction as i64 + step;
        -2147483648 <= next && next <= 2147483647
    }

    /// Moves the pellet `amount` units in its direction.
    pub fn advance_by(&mut self, amount: i32)
        requires
            old(self).spec_can_advance_by(amount),
        ensures
            *final(self) == old(self).spec_advance_by(amount),
            final(self).offset_along_direction == old(self).advanced_offset(amount),
            final(self).direction == old(self).direction,
            final(self).origin == old(self).origin,
            final(self).pitch == old(self).pitch,
    {
        let step: i64 = if self.direction.negative() {
            -(amount as i64)
        } else {
            amount as i64
        };
        self.offset_along_direction = (self.offset_along_direction as i64 + step) as i32;
    }

    #[verifier::when_used_as_spec(spec_with_pitch)]
    pub fn with_pitch(self, pitch: Pitch) -> (pellet: Pellet)
        ensures
            pellet == self.spec_with_pitch(pitch),
            pellet.direction == self.direction,
            pellet.offset_along_direction == self.offset_along_direction,
            pellet.origin == self.origin,
            pellet.pitch == pitch,
    {
        Self { pitch, ..self }
    }

    #[verifier::when_used_as_spec(spec_new_at)]
    pub fn new_at(at: Position, direction: Direction) -> (pellet: Pellet)
        ensures
            pellet == Pellet::spec_new_at(at, direction),
            pellet.direction == direction,
            pellet.offset_along_direction == at.spec_position_along(direction)
                * OFFSET_FIXED_POINT_FACTOR,
            pellet.origin == at,
            pellet.pitch == Pitch::spec_new(0),
    {
        Self {
            direction,
            offset_along_direction: at.position_along(direction) as i32
                * OFFSET_FIXED_POINT_FACTOR,
            origin: at,
            pitch: Pitch::new(0),
        }
    }

    #[verifier::when_used_as_spec(spec_pos_rounded)]
    pub fn pos_rounded(self) -> (cell: Position)
        requires
            self.has_cell(),
        ensures
            cell == self.spec_pos_rounded(),
    {
        let along: i16 = (self.offset_along_direction / OFFSET_FIXED_POINT_FACTOR) as i16;

        if self.direction.is_horizontal() {
            Position { x: along, y: self.origin.y }
        } else {
            Position { x: self.origin.x, y: along }
        }
    }

    /// The cell the pellet last left: it does not collide with what stands
    /// there.
    #[verifier::when_used_as_spec(spec_immune_pos)]
    pub fn immune_pos(self) -> (origin: Position)
        ensures
            origin == self.origin,
    {
        self.origin
    }

    #[verifier::when_used_as_spec(spec_should_remove)]
    pub fn should_remove(self) -> (gone: bool)
        ensures
            gone == self.spec_should_remove(),
    {
        self.offset_along_direction < OFFSET_MIN || OFFSET_MAX < self.offset_along_direction
    }
}

/// The grid ends where the coordinates of its cells end: the offsets on
/// the grid are those from the smallest coordinate to the largest, in
/// units of the offset.
pub proof fn lemma_grid_bounds()
    ensures
        OFFSET_MIN == i16::MIN * OFFSET_FIXED_POINT_FACTOR,
        OFFSET_MAX == i16::MAX * OFFSET_FIXED_POINT_FACTOR,
{
}

/// Travel adds the amount times the sign of the direction to the offset.
pub proof fn lemma_advance_is_signed(pellet: Pellet, amount: i32)
    ensures
        pellet.advanced_offset(amount) == pellet.offset_along_direction
            + pellet.direction.spec_sign() * amount,
{
    lemma_sign_times(pellet.direction, amount as int);
}

/// Travel adds up: after `ticks` ticks of `amount` units each a pellet has
/// moved by their product, along its direction, and nothing else of it has
/// changed.
pub proof fn lemma_travel(pellet: Pellet, amount: i32, ticks: nat)
    requires
        i32::MIN <= pellet.offset_along_direction + pellet.direction.spec_sign() * (amount
            * ticks) <= i32::MAX,
    ensures
        pellet.advanced_times(amount, ticks) == (Pellet {
            offset_along_direction: (pellet.offset_along_direction
                + pellet.direction.spec_sign() * (amount * ticks)) as i32,
            ..pellet
        }),
    decreases ticks,
{
    if ticks > 0 {
        let before = (ticks - 1) as nat;
        let total: int = amount * ticks;
        let so_far: int = amount * before;
        assert(total == so_far + amount) by (nonlinear_arith)
            requires
                total == amount * ticks,
                so_far == amount * before,
                before == ticks - 1,
        ;
        assert(amount >= 0 ==> so_far >= 0) by (nonlinear_arith)
            requires
                so_far == amount * before,
                before >= 0,
        ;
        assert(amount <= 0 ==> so_far <= 0) by (nonlinear_arith)
            requires
                so_far == amount * before,
                before >= 0,
        ;
        lemma_sign_times(pellet.direction, total);
        lemma_sign_times(pellet.direction, so_far);
        lemma_travel(pellet, amount, before);
    } else {
        assert(amount * ticks == 0) by (nonlinear_arith)
            requires
                ticks == 0,
        ;
        lemma_sign_times(pellet.direction, 0);
    }
}

/// The sign of a direction times a number is the number or its opposite.
proof fn lemma_sign_times(direction: Direction, units: int)
    ensures
        direction.spec_sign() * units == if direction.spec_negative() {
            -units
        } else {
            units
        },
{
    assert(1 * units == units && (-1) * units == -units) by (nonlinear_arith);
}

/// A pellet that starts on the cell in the middle of the grid and travels
/// `ticks` ticks at `amount` units a tick is on the cell that lies as many
/// cells along its direction as the units it has travelled make whole
/// cells, rounded towards zero, and on its axis.
pub proof fn lemma_travel_from_origin(direction: Direction, amount: i32, ticks: nat)
    requires
        i32::MIN <= amount * ticks <= i32::MAX,
        i32::MIN <= -(amount * ticks) <= i32::MAX,
    ensures
        ({
            let start = Pellet::spec_new_at(Position { x: 0, y: 0 }, direction);
            let after = start.advanced_times(amount, ticks);
            let cells = div_toward_zero(
                direction.spec_sign() * (amount * ticks),
                OFFSET_FIXED_POINT_FACTOR as int,
            );
            &&& after.offset_along_direction == direction.spec_sign() * (amount * ticks)
            &&& after.cell_along() == cells
            &&& amount >= 0 ==> cells == direction.spec_sign() * ((amount * ticks)
                / OFFSET_FIXED_POINT_FACTOR as int)
            &&& after.has_cell() ==> after.spec_pos_rounded() == if direction.spec_is_horizontal() {
                Position { x: cells as i16, y: 0 }
            } else {
                Position { x: 0, y: cells as i16 }
            }
        }),
{
    let start = Pellet::spec_new_at(Position { x: 0, y: 0 }, direction);
    assert(amount >= 0 ==> amount * ticks >= 0) by (nonlinear_arith)
        requires
            ticks >= 0,
    ;
    lemma_sign_times(direction, amount * ticks);
    lemma_sign_times(direction, (amount * ticks) / (OFFSET_FIXED_POINT_FACTOR as int));
    lemma_travel(start, amount, ticks);
}

/// A pellet that is on the grid is on a cell of the grid.
pub proof fn lemma_on_grid_has_cell(pellet: Pellet)
    requires
        !pellet.spec_should_remove(),
    ensures
        pellet.has_cell(),
{
}

/// A pellet that has just been put on a cell is on the grid, on that cell,
/// which is also the cell it is immune to.
pub proof fn lemma_new_pellet_rests(at: Position, direction: Direction, pitch: Pitch)
    ensures
        ({
            let pellet = Pellet::spec_new_at(at, direction).spec_with_pitch(pitch);
            &&& !pellet.spec_should_remove()
            &&& pellet.spec_pos_rounded() == at
            &&& pellet.spec_immune_pos() == at
        }),
{
}

/// After a tick of travel a pellet is on the grid, or it is gone.
pub proof fn lemma_after_tick_on_grid(pellet: Pellet, amount: i32)
    ensures
        pellet.after_tick(amount) matches Some(moved) ==> !moved.spec_should_remove()
            && pellet.spec_can_advance_by(amount),
        pellet.after_tick(amount) is None <==> !pellet.spec_can_advance_by(amount)
            || pellet.spec_advance_by(amount).spec_should_remove(),
{
}

} // verus!
