//! Core logic of a typed-particle life simulator.
//!
//! The numeric heart of the simulator is a uniform-grid spatial partition:
//! particles are binned by cell, bin counts are turned into start offsets by
//! a prefix sum, and a scatter pass sorts particles by bin so that force
//! gathering only touches a 3x3 neighborhood of cells.  These integer-domain
//! algorithms, together with the phase sequencing and double-buffering
//! discipline that keep the two execution backends race-free, are verified
//! here.  The floating-point force evaluation itself, and everything touching
//! the window system or the GPU device, lives in the unverified application
//! shell around this crate.

pub mod bins;
pub mod boundary;
pub mod catalog;
pub mod controls;
pub mod defaults;
pub mod game_of_life;
pub mod math;
pub mod pipeline;
pub mod render_params;
pub mod sort;
pub mod spatial_grid;
pub mod video;
