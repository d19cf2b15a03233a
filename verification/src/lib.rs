//! Host-side encoding of rigid-body state for GPU consumption.
//!
//! This library converts rigid-body simulation state (bodies, shapes, mass
//! properties, velocities, poses) produced by a CPU-side physics engine into a
//! compact, fixed-layout representation consumable by GPU compute kernels.
//!
//! Every scalar destined for the GPU is carried as the 32-bit IEEE-754 bit
//! pattern of the corresponding single-precision float (a `u32`). The GPU-side
//! shape record stores its type tag as an integer bit pattern sharing a lane
//! with float parameters, so the bit-pattern representation is the natural,
//! exact domain for the whole encoding pipeline.

use vstd::prelude::*;

pub mod body;
pub mod engine;
pub mod integrate;
pub mod math;
pub mod shapes;

verus! {

/// IEEE-754 bit pattern of the single-precision value one.
pub const F32_ONE_BITS: u32 = 0x3F80_0000;

/// IEEE-754 bit pattern of the single-precision value one half.
pub const F32_HALF_BITS: u32 = 0x3F00_0000;

} // verus!
