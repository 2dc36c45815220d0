//! A two-dimensional Ising spin lattice with toroidal adjacency, stepped by
//! the Metropolis rule while an annealing schedule sweeps the inverse
//! temperature between two bounds.
pub mod lattice;
pub mod metropolis;
mod random;
pub mod schedule;
pub mod simulation;

pub use lattice::{Lattice, LatticeError};
pub use metropolis::{Acceptance, CERTAIN};
pub use schedule::{Direction, Schedule};
pub use simulation::{Palette, Simulation};
