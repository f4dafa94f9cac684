//! Voxel event propagation: a registry of grid cells that exchange update
//! events with their neighbors on every tick of a simulation loop.
use vstd::prelude::*;

pub mod error;
pub mod lemmas;
pub mod registry;
pub mod simulation;
pub mod voxel;
