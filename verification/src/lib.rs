//! A library for driving an interactively navigable Mandelbrot rendering:
//! a decimal fixed-point viewport parameter model (extent, offset, iteration
//! budget) mutated by zoom and pan events, a compute-pipeline orchestration
//! state machine, the dispatch-grid computation that covers the simulation
//! resolution with fixed-size workgroup tiles, and the byte-exact packing of
//! the per-frame uniform snapshot.

use vstd::prelude::*;

pub mod fixed;
pub mod params;
pub mod pipeline;
pub mod rational;
pub mod uniform;

verus! {

/// Side length, in pixels, of one compute workgroup tile.
pub const WORKGROUP_SIZE: u32 = 8;

/// Width, in pixels, of the simulation grid that each dispatch covers.
pub const SIMULATION_WIDTH: u32 = 1280;

/// Height, in pixels, of the simulation grid that each dispatch covers.
pub const SIMULATION_HEIGHT: u32 = 720;

} // verus!
