//! Error types for frame creation, rooting and slot allocation.
//!
//! Capacity and allocation failures are recoverable: they are reported as
//! values carrying the requested and available counts, and are never swallowed
//! by the rest of the library.

use vstd::prelude::*;

verus! {

/// An allocation request that could not be satisfied.
#[derive(Clone, Copy, Debug, PartialEq, Eq, Structural)]
pub enum AllocError {
    /// A rooting or reservation attempt on a frame whose root count has
    /// reached its capacity. Carries the number of slots that were requested
    /// and the frame's capacity.
    FrameOverflow(usize, usize),
    /// A top-level frame request that does not fit in the stack buffer.
    /// Carries the capacity that was requested and the total size of the
    /// buffer.
    StackOverflow(usize, usize),
}

/// The errors this library reports.
#[derive(Clone, Copy, Debug, PartialEq, Eq, Structural)]
pub enum JlrsError {
    /// A capacity or allocation overflow; recoverable.
    AllocError(AllocError),
    /// A rooting operation was invoked on a `NullFrame`, which has no
    /// capacity by design; recoverable.
    NullFrame,
}

/// Shorthand for results whose error side is [`JlrsError`].
pub type JlrsResult<T> = Result<T, JlrsError>;

} // verus!
