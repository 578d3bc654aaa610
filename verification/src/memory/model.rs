//! The mathematical model that the frame contracts are stated over.
//!
//! Every live or embedded frame is abstracted by a [`FrameView`]: the contents
//! of its published slots, how many of them hold roots, its capacity, where
//! its region lives, and whether it carries an output reservation. The
//! functions here describe, at the model level, what each frame operation
//! does; the executable frame methods promise in their contracts to realise
//! exactly these functions.

use vstd::prelude::*;

use crate::memory::stack::{FRAME_OVERHEAD, MIN_FRAME_CAPACITY};

verus! {

/// An output reservation as the model sees it: a slot owned by the frame
/// `depth` levels up the parent chain.
#[verifier::ext_equal]
pub ghost struct OutputView {
    /// How many frames up the chain the reserved slot lives; `1` is the
    /// immediate parent.
    pub depth: nat,
    /// The index of the reserved slot in that frame.
    pub slot: nat,
}

/// The model of one frame.
#[verifier::ext_equal]
pub ghost struct FrameView {
    /// The contents of the published slots, in slot order. Its length is the
    /// frame's slot count: the number of slots the foreign collector walks.
    pub slots: Seq<usize>,
    /// How many of the published slots hold roots. Roots occupy the slots
    /// `0 .. n_roots`; published slots past them always read as zero.
    pub n_roots: nat,
    /// The largest slot count this frame can grow to: the size of its region
    /// minus the header overhead.
    pub capacity: nat,
    /// Whether this frame's region is an overflow page rather than a carved
    /// piece of its parent's region.
    pub from_page: bool,
    /// The size, in slots, of the overflow page this frame owns for its
    /// children, if any.
    pub page: Option<nat>,
    /// Whether this is a suspension-safe frame.
    pub is_async: bool,
    /// The output reservation this frame carries, if any.
    pub output: Option<OutputView>,
}

impl FrameView {
    /// The number of published slots.
    pub open spec fn n_slots(self) -> nat {
        self.slots.len()
    }

    /// The rooted values, in rooting order.
    pub open spec fn roots(self) -> Seq<usize> {
        self.slots.take(self.n_roots as int)
    }

    /// Well-formedness at the model level: roots fit in the published slots,
    /// the published slots fit in the capacity, and every published slot
    /// beyond the roots reads as zero.
    pub open spec fn inv(self) -> bool {
        &&& self.n_roots <= self.slots.len() <= self.capacity
        &&& forall|i: int| self.n_roots <= i < self.slots.len() ==> self.slots[i] == 0
    }
}

/// A zero-filled sequence of `n` slots.
pub open spec fn zeros(n: nat) -> Seq<usize> {
    Seq::new(n, |i: int| 0usize)
}

/// The size of the region a nested frame requesting `capacity` slots needs:
/// at least the minimum frame capacity, plus the header overhead.
pub open spec fn nested_region_size(capacity: nat) -> nat {
    ((if capacity > MIN_FRAME_CAPACITY {
        capacity
    } else {
        MIN_FRAME_CAPACITY as nat
    }) + FRAME_OVERHEAD) as nat
}

/// Whether a child requesting `capacity` slots fits in the unused region of a
/// parent modelled by `m`. The parent's region holds `m.capacity +
/// FRAME_OVERHEAD` slots of which the first `m.n_slots() + FRAME_OVERHEAD`
/// are in use.
pub open spec fn fits(m: FrameView, capacity: nat) -> bool {
    m.n_slots() + nested_region_size(capacity) <= m.capacity
}

/// The capacity a child nested under a parent modelled by `m` with request
/// `capacity` ends up with: the parent's whole unused region when the request
/// fits; otherwise the parent's existing page when that is large enough, or a
/// fresh page sized exactly to the request.
pub open spec fn nested_capacity(m: FrameView, capacity: nat) -> nat {
    if fits(m, capacity) {
        (m.capacity - m.n_slots() - FRAME_OVERHEAD) as nat
    } else {
        match m.page {
            Some(sz) => if sz >= nested_region_size(capacity) {
                (sz - FRAME_OVERHEAD) as nat
            } else {
                (nested_region_size(capacity) - FRAME_OVERHEAD) as nat
            },
            None => (nested_region_size(capacity) - FRAME_OVERHEAD) as nat,
        }
    }
}

/// The model of a freshly nested child: `capacity` published slots, all zero,
/// no roots, no page of its own.
pub open spec fn child_model(
    m: FrameView,
    capacity: nat,
    is_async: bool,
    output: Option<OutputView>,
) -> FrameView {
    FrameView {
        slots: zeros(capacity),
        n_roots: 0,
        capacity: nested_capacity(m, capacity),
        from_page: !fits(m, capacity),
        page: None,
        is_async,
        output,
    }
}

/// The model of the parent right after nesting a child requesting `capacity`
/// slots: unchanged when the child fits; otherwise its page — reused or
/// freshly allocated — has moved to the child.
pub open spec fn parent_after_nest(m: FrameView, capacity: nat) -> FrameView {
    if fits(m, capacity) {
        m
    } else {
        FrameView { page: None, ..m }
    }
}

/// The model of the parent right after its child is popped: when the child's
/// region was an overflow page, the parent takes that page back for reuse;
/// otherwise the parent is exactly as it was.
pub open spec fn parent_after_pop(emb: FrameView, child: FrameView) -> FrameView {
    if child.from_page {
        FrameView { page: Some((child.capacity + FRAME_OVERHEAD) as nat), ..emb }
    } else {
        emb
    }
}

/// The model of a frame whose output reservation has been taken: forwarded to
/// a child or consumed by the promotion write.
pub open spec fn without_output(m: FrameView) -> FrameView {
    FrameView { output: None, ..m }
}

/// The model of a frame after one successful `root` call: the value lands in
/// the first free slot, which is published first if need be.
pub open spec fn root_model(m: FrameView, value: usize) -> FrameView {
    FrameView {
        slots: if m.n_roots == m.slots.len() {
            m.slots.push(value)
        } else {
            m.slots.update(m.n_roots as int, value)
        },
        n_roots: m.n_roots + 1,
        ..m
    }
}

/// The model of a frame after a successful `alloc_slots(additional)` call:
/// the new slots are published zero-filled.
pub open spec fn alloc_model(m: FrameView, additional: nat) -> FrameView {
    FrameView { slots: m.slots + zeros(additional), ..m }
}

/// A chain of ancestor models, outermost first, after the value `value` is
/// promoted into slot `slot` of the frame `depth` levels up from the end.
pub open spec fn promoted(
    ms: Seq<FrameView>,
    depth: nat,
    slot: nat,
    value: usize,
) -> Seq<FrameView> {
    ms.update(
        ms.len() - depth,
        FrameView { slots: ms[ms.len() - depth].slots.update(slot as int, value), ..ms[ms.len() - depth] },
    )
}

/// The model of a frame after rooting each value of `vs` in order.
pub open spec fn root_fold(m: FrameView, vs: Seq<usize>) -> FrameView
    decreases vs.len(),
{
    if vs.len() == 0 {
        m
    } else {
        root_fold(root_model(m, vs[0]), vs.drop_first())
    }
}

} // verus!
