//! Step-based signal routing on a sparse grid: pellets travel along grid
//! axes, components placed on cells redirect, transform or consume them, and
//! a tick moves every pellet, fires the emitters on the beat and resolves
//! the collisions.

pub mod project;
pub mod sound;
