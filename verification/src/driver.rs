//! The CUDA driver objects that the library speaks of, as plain handles.

use vstd::prelude::*;

verus! {

/// An error code of the CUDA driver.
#[derive(Clone, Copy, Debug, PartialEq, Eq, Structural)]
pub struct DriverError(pub u32);

/// `CUDA_ERROR_INVALID_VALUE`.
pub const CUDA_ERROR_INVALID_VALUE: u32 = 1;

/// `CUDA_ERROR_INVALID_CLUSTER_SIZE`.
pub const CUDA_ERROR_INVALID_CLUSTER_SIZE: u32 = 912;

/// A CUDA context: its driver handle and the ordinal of its device.
#[derive(Clone, Copy, Debug, PartialEq, Eq, Structural)]
pub struct CudaContext {
    pub cu_ctx: usize,
    pub ordinal: usize,
}

/// A kernel function, with the context that it was loaded into.
#[derive(Clone, Copy, Debug, PartialEq, Eq, Structural)]
pub struct CudaFunction {
    pub cu_function: usize,
    pub context: CudaContext,
}

/// A stream, with the context that it was created in.
#[derive(Clone, Copy, Debug, PartialEq, Eq, Structural)]
pub struct CudaStream {
    pub cu_stream: usize,
    pub context: CudaContext,
}

} // verus!
