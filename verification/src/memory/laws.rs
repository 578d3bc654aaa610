//! The laws the frame model obeys, stated and proved once over
//! [`FrameView`]s. Each executable frame operation promises in its contract to
//! realise the model functions these laws speak about, so the laws carry over
//! to any sequence of calls.

use vstd::prelude::*;

use crate::memory::model::{
    child_model, fits, nested_capacity, parent_after_nest, parent_after_pop, root_fold,
    root_model, FrameView, OutputView,
};
use crate::memory::stack::MIN_FRAME_CAPACITY;

verus! {

/// Rooting a sequence of values that does not exceed a frame's capacity
/// succeeds throughout: the root count afterwards equals the count before
/// plus the number of calls, the slot count never falls below the root count,
/// and the rooted values sit in call order after whatever was rooted before.
pub proof fn lemma_root_sequence(m: FrameView, vs: Seq<usize>)
    requires
        m.inv(),
        m.n_roots + vs.len() <= m.capacity,
    ensures
        root_fold(m, vs).inv(),
        root_fold(m, vs).n_roots == m.n_roots + vs.len(),
        root_fold(m, vs).n_slots() >= root_fold(m, vs).n_roots,
        root_fold(m, vs).roots() == m.roots() + vs,
        root_fold(m, vs).capacity == m.capacity,
    decreases vs.len(),
{
    if vs.len() == 0 {
        assert(root_fold(m, vs) == m);
        assert(m.roots() + vs =~= m.roots());
    } else {
        let m1 = root_model(m, vs[0]);
        assert(m1.inv());
        assert(m1.roots() =~= m.roots().push(vs[0]));
        lemma_root_sequence(m1, vs.drop_first());
        assert(m.roots() + vs =~= m1.roots() + vs.drop_first());
    }
}

/// A nested frame is always given at least the minimum frame capacity, and at
/// least what was requested.
pub proof fn lemma_nested_capacity_floor(m: FrameView, capacity: nat)
    ensures
        nested_capacity(m, capacity) >= capacity,
        nested_capacity(m, capacity) >= MIN_FRAME_CAPACITY,
{
}

/// Nesting a child whose requested capacity fits in the parent's remaining
/// region never touches an overflow page: the child's region is not a page,
/// and the parent — its own page included — is exactly as it was.
pub proof fn lemma_nest_within_region(
    m: FrameView,
    capacity: nat,
    is_async: bool,
    output: Option<OutputView>,
)
    requires
        fits(m, capacity),
    ensures
        !child_model(m, capacity, is_async, output).from_page,
        parent_after_nest(m, capacity) == m,
{
}

/// Nesting a child whose requested capacity exceeds the parent's remaining
/// region puts the child on exactly one overflow page, sized at least the
/// request (and at least the minimum frame capacity); the parent's own slots,
/// roots and capacity are untouched.
pub proof fn lemma_nest_on_overflow_page(
    m: FrameView,
    capacity: nat,
    is_async: bool,
    output: Option<OutputView>,
)
    requires
        !fits(m, capacity),
    ensures
        child_model(m, capacity, is_async, output).from_page,
        child_model(m, capacity, is_async, output).capacity >= capacity,
        child_model(m, capacity, is_async, output).capacity >= MIN_FRAME_CAPACITY,
        parent_after_nest(m, capacity).slots == m.slots,
        parent_after_nest(m, capacity).n_roots == m.n_roots,
        parent_after_nest(m, capacity).capacity == m.capacity,
{
}

/// The nest-then-pop round trip. A child must be destroyed before its parent
/// can be used again — the child owns the parent, so the other order cannot
/// be written — and destroying it restores the parent exactly: same slots,
/// same roots, same capacity, same reservation. Only the parent's overflow
/// page can differ, when the child's region was one: the parent then holds
/// that page for reuse.
pub proof fn lemma_nest_pop_round_trip(
    m: FrameView,
    capacity: nat,
    is_async: bool,
    output: Option<OutputView>,
)
    ensures
        ({
            let child = child_model(m, capacity, is_async, output);
            let restored = parent_after_pop(parent_after_nest(m, capacity), child);
            &&& restored.slots == m.slots
            &&& restored.n_roots == m.n_roots
            &&& restored.capacity == m.capacity
            &&& restored.from_page == m.from_page
            &&& restored.is_async == m.is_async
            &&& restored.output == m.output
            &&& fits(m, capacity) ==> restored == m
        }),
{
}

/// The output-promotion round trip: reserving a slot in a frame and then
/// promoting the value `v` into it leaves the frame with exactly one
/// additional live root, equal to `v`, after whatever was rooted before.
/// `root_model(m, 0)` is the reservation — the slot is published, zeroed and
/// counted — and the update at the reserved index `m.n_roots` is the single
/// promotion write.
pub proof fn lemma_output_promotion(m: FrameView, v: usize)
    requires
        m.inv(),
        m.n_roots < m.capacity,
    ensures
        ({
            let reserved = root_model(m, 0);
            let written = FrameView {
                slots: reserved.slots.update(m.n_roots as int, v),
                ..reserved
            };
            &&& written.inv()
            &&& written.n_roots == m.n_roots + 1
            &&& written.roots() == m.roots().push(v)
            &&& written.capacity == m.capacity
        }),
{
    let reserved = root_model(m, 0);
    let written = FrameView { slots: reserved.slots.update(m.n_roots as int, v), ..reserved };
    assert(written.roots() =~= m.roots().push(v));
}

/// A saturated frame — one whose root count has reached its capacity — gains
/// nothing from a root call in the model: `root_model` is only ever applied
/// below capacity, and rooting at capacity is exactly the case the executable
/// operations reject with a checked error.
pub proof fn lemma_saturation_is_checked(m: FrameView)
    requires
        m.inv(),
        m.n_roots == m.capacity,
    ensures
        m.n_slots() == m.capacity,
        m.roots() == m.slots,
{
    assert(m.roots() =~= m.slots);
}

} // verus!
