//! Errors of the buffer store and the dispatch engine.

use crate::buffer::BufferHandle;
use vstd::prelude::*;

verus! {

/// Why an operation of the backend failed.
#[derive(Debug, PartialEq, Eq)]
pub enum WgpuBackendError {
    /// No compatible accelerator was found.
    InitializationError,
    /// The accelerator refused to hand out a logical device; the text is the
    /// platform's detail.
    RequestDeviceError(String),
    /// The device failed to map a buffer for reading.
    BufferError,
    /// A wait found no submission in flight; the text names the operation.
    SubmissionQueueEmpty(String),
    /// The device did not answer a wait in time; the text names the
    /// operation.
    Timeout(String),
    /// The handle names no buffer of this store.
    InvalidBuffer(BufferHandle),
    /// The shape describes no buffer or no kernel run: an axis that the
    /// operation reads is missing, an extent does not fit in a field of the
    /// parameter block or would be negative, the size in bytes does not fit
    /// in 64 bits, or host bytes are not a whole number of elements.
    InvalidGeometry,
}

} // verus!
