//! The physical root-registration stack and its overflow pages.
//!
//! A [`Stack`] owns one contiguous buffer of pointer-sized slots. Top-level
//! frames take the whole buffer as their region; nested frames carve their
//! region out of the parent's unused tail, and fall back to an independently
//! owned [`StackPage`] when the tail is too small. Root values are opaque to
//! this library and are stored as plain `usize` words, exactly as the foreign
//! collector sees them.

use vstd::prelude::*;

verus! {

/// The least capacity any nested frame is given, even when zero slots are
/// requested, so that implicit roots always have some slack.
pub const MIN_FRAME_CAPACITY: usize = 16;

/// Slots of overhead per frame: one for the packed slot count, one for the
/// link to the previous stack top.
pub const FRAME_OVERHEAD: usize = 2;

/// The largest capacity a single frame region may have. The bound is a
/// machine limit, not a policy: the packed slot count is stored shifted left
/// by one bit in a `usize` header word, so twice the capacity (plus the
/// header) must fit in `usize`.
pub const MAX_FRAME_CAPACITY: usize = usize::MAX / 2 - 2;

/// The size, in slots, of the buffer a [`Stack`] is created with by default.
pub const DEFAULT_STACK_SIZE: usize = 4096;

/// Returns a zero-filled buffer of `len` slots.
pub(crate) fn zeroed(len: usize) -> (v: Vec<usize>)
    ensures
        v@.len() == len,
        forall|i: int| 0 <= i < len ==> v@[i] == 0,
{
    let mut v: Vec<usize> = Vec::new();
    let mut n: usize = 0;
    while n < len
        invariant
            n <= len,
            v@.len() == n,
            forall|i: int| 0 <= i < n ==> v@[i] == 0,
        decreases len - n,
    {
        v.push(0);
        n = n + 1;
    }
    v
}

/// The contiguous slot buffer that the foreign collector walks. One stack
/// exists per independent entry point into the foreign runtime; top-level
/// frame creation borrows the whole buffer.
#[derive(Debug)]
pub struct Stack {
    mem: Vec<usize>,
}

impl View for Stack {
    type V = Seq<usize>;

    closed spec fn view(&self) -> Seq<usize> {
        self.mem@
    }
}

impl Stack {
    /// The buffer is no larger than a frame region may be.
    pub open spec fn wf(&self) -> bool {
        self@.len() <= MAX_FRAME_CAPACITY + FRAME_OVERHEAD
    }

    /// Creates a stack with the default, generously sized buffer, zero-filled.
    pub fn new() -> (s: Stack)
        ensures
            s.wf(),
            s@.len() == DEFAULT_STACK_SIZE,
            forall|i: int| 0 <= i < s@.len() ==> s@[i] == 0,
    {
        Stack { mem: zeroed(DEFAULT_STACK_SIZE) }
    }

    /// Creates a stack whose buffer holds exactly `size` slots, zero-filled.
    /// `size` is bounded by the machine limit on a frame region.
    pub fn with_size(size: usize) -> (s: Stack)
        requires
            size <= MAX_FRAME_CAPACITY + FRAME_OVERHEAD,
        ensures
            s.wf(),
            s@.len() == size,
            forall|i: int| 0 <= i < s@.len() ==> s@[i] == 0,
    {
        Stack { mem: zeroed(size) }
    }

    /// The total number of slots in the buffer.
    pub fn size(&self) -> (r: usize)
        ensures
            r == self@.len(),
    {
        self.mem.len()
    }

    pub(crate) fn into_mem(self) -> (v: Vec<usize>)
        ensures
            v@ == self@,
    {
        self.mem
    }

    pub(crate) fn from_mem(mem: Vec<usize>) -> (s: Stack)
        requires
            mem@.len() <= MAX_FRAME_CAPACITY + FRAME_OVERHEAD,
        ensures
            s.wf(),
            s@ == mem@,
    {
        Stack { mem }
    }
}

/// An independently owned overflow buffer, allocated when a nested frame
/// request does not fit in the parent's remaining region. It is owned by the
/// frame that triggered the allocation and freed (or reused by a later child)
/// when that frame is destroyed.
#[derive(Debug)]
pub struct StackPage {
    mem: Vec<usize>,
}

impl View for StackPage {
    type V = Seq<usize>;

    closed spec fn view(&self) -> Seq<usize> {
        self.mem@
    }
}

impl StackPage {
    /// Creates a page holding exactly `min_size` slots, zero-filled.
    pub(crate) fn new(min_size: usize) -> (p: StackPage)
        requires
            min_size <= MAX_FRAME_CAPACITY + FRAME_OVERHEAD,
        ensures
            p@.len() == min_size,
            forall|i: int| 0 <= i < p@.len() ==> p@[i] == 0,
    {
        StackPage { mem: zeroed(min_size) }
    }

    /// The number of slots the page holds.
    pub fn size(&self) -> (r: usize)
        ensures
            r == self@.len(),
    {
        self.mem.len()
    }

    pub(crate) fn into_mem(self) -> (v: Vec<usize>)
        ensures
            v@ == self@,
    {
        self.mem
    }

    pub(crate) fn from_mem(mem: Vec<usize>) -> (p: StackPage)
        ensures
            p@ == mem@,
    {
        StackPage { mem }
    }
}

} // verus!
