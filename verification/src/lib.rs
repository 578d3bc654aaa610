//! A scoped, stack-disciplined root-registration library.
//!
//! The library bridges lexically scoped host code to a foreign garbage-collected
//! runtime: every value obtained from that runtime must be *rooted* — registered
//! in a frame the collector can walk — for as long as a handle to it is alive.
//! Frames form a strict stack: a child frame is carved out of its parent's
//! unused region (or out of an overflow page when the parent's region is too
//! small), and must be destroyed before the parent is touched again. The
//! ownership discipline makes any other destruction order unrepresentable: a
//! child frame owns its parent until [`memory::frame::GcFrame::pop`] gives the
//! parent back.
//!
//! The central types live in [`memory::frame`]:
//! - [`memory::frame::GcFrame`] — the synchronous frame: rooting, slot growth
//!   and nesting;
//! - [`memory::frame::AsyncGcFrame`] — adds output promotion, which lifts a
//!   value produced in a deeply nested frame into a slot reserved in an
//!   ancestor frame;
//! - [`memory::frame::NullFrame`] — a zero-capacity marker that satisfies a
//!   calling convention without being able to root anything.
//!
//! [`memory::stack::Stack`] owns the contiguous slot buffer that top-level
//! frames borrow, and [`memory::stack::StackPage`] is the overflow buffer
//! allocated when a nested request does not fit.

pub mod error;
pub mod memory;
pub mod prelude;
pub mod value;
