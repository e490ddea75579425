//! The verified core of a tensegrity fabric simulation: joints, connectors
//! and faces by index, the connectors' rest-length ramps, and the lifecycle
//! stage machine with its busy gate. Positions and forces are left to the
//! caller, who measures lengths in a scalar type of its own (`Length`).

use vstd::prelude::*;

pub mod fabric;
pub mod face;
pub mod interval;
pub mod length;
pub mod stage;

verus! {

} // verus!
