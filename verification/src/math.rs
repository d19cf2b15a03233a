//! Mathematical value types for the GPU encoding.
//!
//! All scalars are IEEE-754 single-precision bit patterns carried as `u32`.
//! The encoding pipeline never performs float arithmetic on them: it only
//! moves them between lanes of fixed-layout records, so the bit pattern is an
//! exact, loss-free representation.

use vstd::prelude::*;

verus! {

/// A 3-component vector of single-precision bit patterns.
///
/// Used for points, translations, half-extents, linear and angular
/// velocities, and centers of mass.
#[derive(Copy, Clone, Debug, PartialEq, Eq, Structural)]
pub struct PackedVec3 {
    /// Bit pattern of the first component.
    pub x: u32,
    /// Bit pattern of the second component.
    pub y: u32,
    /// Bit pattern of the third component.
    pub z: u32,
}

/// A 4-component vector of single-precision bit patterns.
///
/// Used for the two lanes of the fixed-size shape record and for rotation
/// quaternions.
#[derive(Copy, Clone, Debug, PartialEq, Eq, Structural)]
pub struct PackedVec4 {
    /// Bit pattern of the first component.
    pub x: u32,
    /// Bit pattern of the second component.
    pub y: u32,
    /// Bit pattern of the third component.
    pub z: u32,
    /// Bit pattern of the fourth component.
    pub w: u32,
}

/// A 3x3 matrix of single-precision bit patterns, stored by columns.
///
/// Used for the inverse angular-inertia tensor.
#[derive(Copy, Clone, Debug, PartialEq, Eq, Structural)]
pub struct PackedMat3 {
    /// First column.
    pub c0: PackedVec3,
    /// Second column.
    pub c1: PackedVec3,
    /// Third column.
    pub c2: PackedVec3,
}

impl PackedVec3 {
    /// The all-zero vector (every component is the bit pattern of `0.0`).
    pub fn zero() -> (r: PackedVec3)
        ensures
            r == (PackedVec3 { x: 0, y: 0, z: 0 }),
    {
        PackedVec3 { x: 0, y: 0, z: 0 }
    }

    /// Broadcast one scalar bit pattern to all three components.
    pub fn splat(v: u32) -> (r: PackedVec3)
        ensures
            r == (PackedVec3 { x: v, y: v, z: v }),
    {
        PackedVec3 { x: v, y: v, z: v }
    }
}

impl PackedMat3 {
    /// The all-zero matrix.
    pub fn zero() -> (r: PackedMat3)
        ensures
            r == PackedMat3::spec_zero(),
    {
        PackedMat3 {
            c0: PackedVec3 { x: 0, y: 0, z: 0 },
            c1: PackedVec3 { x: 0, y: 0, z: 0 },
            c2: PackedVec3 { x: 0, y: 0, z: 0 },
        }
    }

    /// The all-zero matrix, as a specification value.
    pub open spec fn spec_zero() -> PackedMat3 {
        PackedMat3 {
            c0: PackedVec3 { x: 0, y: 0, z: 0 },
            c1: PackedVec3 { x: 0, y: 0, z: 0 },
            c2: PackedVec3 { x: 0, y: 0, z: 0 },
        }
    }

    /// The identity matrix, as a specification value.
    pub open spec fn spec_identity() -> PackedMat3 {
        PackedMat3 {
            c0: PackedVec3 { x: crate::F32_ONE_BITS, y: 0, z: 0 },
            c1: PackedVec3 { x: 0, y: crate::F32_ONE_BITS, z: 0 },
            c2: PackedVec3 { x: 0, y: 0, z: crate::F32_ONE_BITS },
        }
    }

    /// The identity matrix (diagonal of `1.0` bit patterns).
    pub fn identity() -> (r: PackedMat3)
        ensures
            r == PackedMat3::spec_identity(),
    {
        PackedMat3 {
            c0: PackedVec3 { x: crate::F32_ONE_BITS, y: 0, z: 0 },
            c1: PackedVec3 { x: 0, y: crate::F32_ONE_BITS, z: 0 },
            c2: PackedVec3 { x: 0, y: 0, z: crate::F32_ONE_BITS },
        }
    }
}

/// A world-space pose lifted into the uniform similarity-transform
/// representation consumed by the GPU kernels: translation, rotation
/// quaternion, and a uniform scale factor (always one when built from a
/// rigid-body isometry).
#[derive(Copy, Clone, Debug, PartialEq, Eq, Structural)]
pub struct GpuSim {
    /// Translation part of the pose.
    pub translation: PackedVec3,
    /// Rotation part of the pose, as a unit quaternion `(x, y, z, w)`.
    pub rotation: PackedVec4,
    /// Uniform scale factor.
    pub scale: u32,
}

impl GpuSim {
    /// The identity pose, as a specification value.
    pub open spec fn spec_identity() -> GpuSim {
        GpuSim {
            translation: PackedVec3 { x: 0, y: 0, z: 0 },
            rotation: PackedVec4 { x: 0, y: 0, z: 0, w: crate::F32_ONE_BITS },
            scale: crate::F32_ONE_BITS,
        }
    }

    /// The identity pose: zero translation, identity quaternion, unit scale.
    pub fn identity() -> (r: GpuSim)
        ensures
            r == GpuSim::spec_identity(),
    {
        GpuSim {
            translation: PackedVec3 { x: 0, y: 0, z: 0 },
            rotation: PackedVec4 { x: 0, y: 0, z: 0, w: crate::F32_ONE_BITS },
            scale: crate::F32_ONE_BITS,
        }
    }

    /// Lift an isometry (translation + rotation) into the similarity
    /// representation, with a unit scale factor.
    pub fn from_isometry(translation: PackedVec3, rotation: PackedVec4) -> (r: GpuSim)
        ensures
            r == (GpuSim { translation, rotation, scale: crate::F32_ONE_BITS }),
    {
        GpuSim { translation, rotation, scale: crate::F32_ONE_BITS }
    }
}

} // verus!
