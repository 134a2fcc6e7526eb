//! Agentbox is a framework for running small real-time rigid-body simulations
//! and rendering them through a GPU ray-marcher. This crate is the verified
//! core: the solid encoding, the bounding-volume-hierarchy builder, the
//! particle integrator's data flow, the world channel, and the decision logic
//! of the simulation and visual loops.
//!
//! The simulations compute with IEEE 754 binary32 numbers. This library never
//! performs that arithmetic itself: every number is carried as its 32-bit
//! pattern (see [`fbits`]), order and finiteness are decided here at the bit
//! level, and the four arithmetic operations plus the square root are supplied
//! by the embedding application as an evaluator (see [`ops`]). Everything
//! around the arithmetic - data flow, control decisions, lengths, tree
//! structure - is stated in contracts and proved.

use vstd::prelude::*;

pub mod aabb_tree;
pub mod channel;
pub mod fbits;
pub mod ops;
pub mod physics;
pub mod simulation;
pub mod solid;
pub mod visual;

verus! {

/// Controller-simulation tick-to-tick communication.
///
/// Read and write to these fields in your controller, and the simulation will
/// respond before next tick.
#[derive(Clone, Copy, PartialEq, Eq, Structural)]
pub struct Status {
    pub display_visual: bool,
    pub should_quit: bool,
}

impl Status {
    /// A status that shows the window from the first tick on.
    pub fn visual() -> (r: Status)
        ensures
            r.display_visual,
            !r.should_quit,
    {
        Status { display_visual: true, should_quit: false }
    }

    /// A status that keeps the window hidden.
    pub fn headless() -> (r: Status)
        ensures
            !r.display_visual,
            !r.should_quit,
    {
        Status { display_visual: false, should_quit: false }
    }
}

/// A model defines the environment in which to run the simulation. Implement
/// it on a zero-sized type; the driving application hands worlds and signals
/// between the controller, this trait, and the library.
pub trait Model {
    type World: Send + Sync + Clone;
    type Signals;

    fn new_world() -> Self::World;

    fn new_signals() -> Self::Signals;

    fn update(world: &mut Self::World, signals: &Self::Signals);

    fn get_solids(world: &Self::World) -> Vec<crate::solid::Solid>;
}

} // verus!
