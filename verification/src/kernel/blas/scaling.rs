//! Scale factors of 8-bit matrix products.

use vstd::prelude::*;

use crate::dtype::F32;
use crate::gpu_ref::GpuRef;

verus! {

/// One scale factor for a whole tensor.
#[derive(Debug, Clone, Copy, PartialEq, Eq, Structural)]
pub struct PerTensorScale {
    pub scale: F32,
}

impl Default for PerTensorScale {
    /// Scale zero.
    fn default() -> (s: PerTensorScale)
        ensures
            s.scale == F32(0),
    {
        PerTensorScale { scale: F32(0) }
    }
}

/// One scale factor per row, in a device buffer.
pub struct PerRowScale {
    pub rows: i32,
    pub scale_buf: GpuRef<F32>,
}

} // verus!
