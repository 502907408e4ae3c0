//! Physics backend selection.

use vstd::prelude::*;

verus! {

/// The physics engine that steps the simulation.
#[derive(Debug, Clone, Copy, PartialEq, Eq, Structural)]
pub enum PhysicsBackend {
    Rapier,
}

} // verus!
