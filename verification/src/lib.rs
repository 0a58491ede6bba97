//! Orbit integrator for bodies on closed elliptical orbits.
//!
//! Each body owns one ellipse's geometry, derived once from a single observed
//! world-space point, and a phase along that ellipse which a tick advances
//! with a self-correcting adaptive step.  All coordinates are fixed-point:
//! plain integers counting millionths of a world unit, so every derivation
//! and every step is exact integer arithmetic with a proved meaning.

pub mod bytestream;
pub mod math;
pub mod planet;
pub mod system;

use vstd::prelude::*;

verus! {

/// Number of fixed-point increments in one world unit: all coordinates,
/// axes and eccentricities in this crate are integers scaled by this.
pub const SCALE: i64 = 1_000_000;

} // verus!
