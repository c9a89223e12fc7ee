//! Errors reported by the device driver and by the copy operations.

use vstd::prelude::*;

verus! {

/// The failures the device layer can report.
#[derive(Clone, Copy, Debug, PartialEq, Eq, Structural)]
pub enum CudaError {
    /// The requested element count, times the element footprint, cannot be
    /// represented in `usize`, or no bytes at all were requested from the
    /// allocator. Reported instead of silently truncating or wrapping.
    InvalidAllocationSize,
    /// The driver refused or failed an allocation request. The modeled
    /// driver of this crate allocates from host memory and never reports it;
    /// it is part of the documented error surface of the interface.
    AllocationError,
    /// The driver refused or failed a free request, for example when a fault
    /// from earlier asynchronous work surfaces at free time. The modeled
    /// driver never reports it; explicit destruction keeps the variant in
    /// its signature so a failed free can hand the buffer back.
    DeallocationError,
    /// Source and destination of a copy have different lengths. Copies never
    /// truncate or overrun; a mismatch leaves both sides untouched.
    SizeMismatch,
}

/// The result of a fallible device operation.
pub type CudaResult<T> = Result<T, CudaError>;

/// The result of explicit, fallible destruction: on failure the error is
/// paired with the still-owned value, so nothing is leaked.
pub type DropResult<T> = Result<(), (CudaError, T)>;

} // verus!
