//! Deterministic, conflict-free movement of discrete actors on an isometric
//! tile grid.
//!
//! Actors occupy exactly one tile each, move one tile at a time in one of the
//! four isometric directions, and may never occupy or pass through a tile
//! claimed by another actor. The crate provides the grid coordinate mapping,
//! the facing/direction model, the shared occupancy map with its reservation
//! protocol, the per-actor movement engine and state machines, and the pursuit
//! policy a hostile mob uses to step toward its target.
//!
//! World positions are fixed-point integers: one world unit is `FP_ONE`
//! sub-units. The engine front end converts to and from its own floating-point
//! vectors at the boundary.
//!
//! Everything is single-threaded and tick-driven: one logical update and one
//! physics update per frame, per actor. Because a reservation's success
//! depends on the occupancy map at the moment of the claim, the order in
//! which the host ticks its actors within one frame decides who wins a
//! contended cell; that order is the host's iteration order and is not
//! sequenced here.

use vstd::prelude::*;

pub mod grid;
pub mod util;
pub mod tilemap_manager;
pub mod character;
pub mod player;
pub mod wolf;
pub mod control;

verus! {

} // verus!
