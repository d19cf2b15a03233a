//! Force and velocity integration dispatch.
//!
//! The per-body integration math executes on the GPU; the host side only
//! decides the compute-grid size. Binding the body set's buffers as kernel
//! arguments and submitting the dispatch are backend work and happen
//! outside the library.

use vstd::prelude::*;

use crate::body::GpuBodySet;

verus! {

/// Size of the compute grid for one integration dispatch over a body set:
/// exactly one work-item per body along the first dimension, so the
/// dispatch degenerates to a no-op for an empty set.
pub fn integrate_dispatch_size(bodies: &GpuBodySet) -> (r: [u32; 3])
    ensures
        r[0] == bodies.spec_len(),
        r[1] == 1,
        r[2] == 1,
{
    [bodies.len(), 1, 1]
}

} // verus!
