//! Re-exports of the items most callers need.

pub use crate::error::{AllocError, JlrsError, JlrsResult};
pub use crate::memory::frame::{AsyncGcFrame, GcFrame, NullFrame, Parent};
pub use crate::memory::stack::{Stack, StackPage, DEFAULT_STACK_SIZE, FRAME_OVERHEAD,
    MAX_FRAME_CAPACITY, MIN_FRAME_CAPACITY};
pub use crate::value::datatype::{DataType, FieldLayout, JuliaTypecheck, TypeTag};
