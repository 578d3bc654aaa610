//! Frames: scoped windows over the root-registration stack.
//!
//! A frame registers with the foreign collector when it is created — its
//! region's header takes the packed slot count and the link to the previous
//! stack top — and deregisters exactly once when it is popped. Rooting a value
//! writes it into the frame's next free slot; the collector then keeps the
//! value alive for as long as the frame is registered.
//!
//! Nesting is strictly last-in, first-out, and the ownership discipline makes
//! any other order unrepresentable rather than checked at run time: a child
//! frame takes its parent by value and holds it until [`GcFrame::pop`] hands
//! it back, so no operation can reach a parent while one of its children is
//! alive.
//!
//! Every contract here is stated over the ghost model of
//! [`crate::memory::model`]: a frame is abstracted by its [`FrameView`] and by
//! the views of its ancestors, outermost first.

use vstd::prelude::*;

use crate::error::{AllocError, JlrsError};
use crate::memory::model::{
    alloc_model, child_model, fits, parent_after_nest, parent_after_pop, promoted, root_model,
    without_output, zeros, FrameView, OutputView,
};
use crate::memory::stack::{
    Stack, StackPage, FRAME_OVERHEAD, MAX_FRAME_CAPACITY, MIN_FRAME_CAPACITY,
};

verus! {

/// The error a saturated frame reports when one more root or reservation is
/// requested: one slot requested, `capacity` the frame's capacity.
pub open spec fn frame_overflow(capacity: nat) -> JlrsError {
    JlrsError::AllocError(AllocError::FrameOverflow(1, capacity as usize))
}

/// The error the stack reports when a top-level frame requesting `capacity`
/// slots does not fit in its buffer of `size` slots.
pub open spec fn stack_overflow(capacity: nat, size: nat) -> JlrsError {
    JlrsError::AllocError(AllocError::StackOverflow(capacity as usize, size as usize))
}

/// What a frame was created from: the bare stack, or a parent frame that the
/// child owns until it is popped.
#[derive(Debug)]
pub enum Link {
    /// The frame took its region directly from the stack buffer.
    Base,
    /// The frame was nested in a synchronous parent.
    Sync(Box<GcFrame>),
    /// The frame was nested in a suspension-safe parent.
    Async(Box<AsyncGcFrame>),
}

/// What [`GcFrame::pop`] and [`AsyncGcFrame::pop`] hand back: the stack when
/// the popped frame was top-level, or the parent frame, restored and usable
/// again.
#[derive(Debug)]
pub enum Parent {
    /// The popped frame was top-level; its region returns to the stack.
    Stack(Stack),
    /// The parent was a synchronous frame.
    Sync(GcFrame),
    /// The parent was a suspension-safe frame.
    Async(AsyncGcFrame),
}

/// A handle to exactly one reserved slot in an ancestor frame: the slot the
/// value produced in a nested scope is promoted into. The reservation is
/// issued by the frame that owns the slot and forwarded, one level per
/// nesting, down to the frame that will produce the value.
#[derive(Debug)]
pub enum OutputSlot {
    /// The reserved slot lives in the immediate parent, at this index.
    InParent(usize),
    /// The reservation was forwarded from the immediate parent, which carries
    /// the rest of the path.
    Forwarded(Box<OutputSlot>),
}

/// The model of a reservation: how many levels up its slot lives, and where.
pub open spec fn output_view(o: OutputSlot) -> OutputView
    decreases o,
{
    match o {
        OutputSlot::InParent(slot) => OutputView { depth: 1, slot: slot as nat },
        OutputSlot::Forwarded(inner) => OutputView {
            depth: output_view(*inner).depth + 1,
            slot: output_view(*inner).slot,
        },
    }
}

/// Whether the reservation `o` is valid against the parent chain `l`: every
/// frame on its path is suspension-safe, and the reserved slot is one of the
/// target frame's published root slots.
pub closed spec fn output_ok(o: OutputSlot, l: Link) -> bool
    decreases o,
{
    match o {
        OutputSlot::InParent(slot) => match l {
            Link::Async(f) => slot < f.n_roots,
            _ => false,
        },
        OutputSlot::Forwarded(inner) => match l {
            Link::Async(f) => output_ok(*inner, f.parent),
            _ => false,
        },
    }
}

/// The reservation a frame's `output` field abstracts to.
pub open spec fn spec_output(o: Option<OutputSlot>) -> Option<OutputView> {
    match o {
        Some(r) => Some(output_view(r)),
        None => None,
    }
}

/// A synchronous frame. It can root values, grow its published slot count,
/// and nest child frames; it is destroyed by [`GcFrame::pop`], which restores
/// its parent.
#[derive(Debug)]
pub struct GcFrame {
    /// The frame's region: header, then slots. While a child carved from this
    /// region is alive, the region is truncated to the header and the
    /// published slots; the child owns the rest.
    region: Vec<usize>,
    /// How many slots hold roots.
    n_roots: usize,
    /// How many slots are published to the collector.
    n_slots: usize,
    /// The region's size minus the header overhead.
    capacity: usize,
    /// Whether the region is an overflow page rather than part of the
    /// parent's region.
    from_page: bool,
    /// The overflow page owned for (and reused between) this frame's
    /// children, if one was ever needed.
    page: Option<StackPage>,
    /// The frame this one was nested in.
    parent: Link,
}

/// The page size a frame's `page` field abstracts to.
pub closed spec fn spec_page_size(page: Option<StackPage>) -> Option<nat> {
    match page {
        Some(p) => Some(p@.len()),
        None => None,
    }
}

/// The field-level invariant of a frame, live or embedded: counts are
/// ordered, the header word holds the packed slot count, and every published
/// slot beyond the roots reads as zero.
pub closed spec fn frame_inv(
    region: Seq<usize>,
    n_roots: nat,
    n_slots: nat,
    capacity: nat,
    page: Option<nat>,
) -> bool {
    &&& n_roots <= n_slots <= capacity <= MAX_FRAME_CAPACITY
    &&& n_slots + FRAME_OVERHEAD <= region.len() <= capacity + FRAME_OVERHEAD
    &&& region[0] == 2 * n_slots
    &&& forall|i: int| n_roots <= i < n_slots ==> #[trigger] region[i + FRAME_OVERHEAD] == 0
    &&& match page {
        Some(sz) => sz <= MAX_FRAME_CAPACITY + FRAME_OVERHEAD,
        None => true,
    }
}

/// The constraints on an embedded parent whose child's region is an overflow
/// page (`child_from_page`), or a carved tail of the parent's own region
/// otherwise: in the first case the parent's region is whole and its page has
/// moved to the child; in the second the parent's region is truncated to its
/// published slots, and the child's capacity accounts for the rest.
pub closed spec fn emb_ok(
    region: Seq<usize>,
    n_slots: nat,
    capacity: nat,
    page: Option<nat>,
    child_from_page: bool,
    child_capacity: nat,
) -> bool {
    if child_from_page {
        &&& region.len() == capacity + FRAME_OVERHEAD
        &&& page is None
    } else {
        &&& region.len() == n_slots + FRAME_OVERHEAD
        &&& child_capacity + n_slots + FRAME_OVERHEAD == capacity
    }
}

/// Whether the whole parent chain behind `l` is well formed, given where the
/// immediate child's region lives.
pub closed spec fn link_ok(l: Link, child_from_page: bool, child_capacity: nat) -> bool
    decreases l,
{
    match l {
        Link::Base => !child_from_page,
        Link::Sync(p) => {
            &&& frame_inv(
                p.region@,
                p.n_roots as nat,
                p.n_slots as nat,
                p.capacity as nat,
                spec_page_size(p.page),
            )
            &&& emb_ok(
                p.region@,
                p.n_slots as nat,
                p.capacity as nat,
                spec_page_size(p.page),
                child_from_page,
                child_capacity,
            )
            &&& link_ok(p.parent, p.from_page, p.capacity as nat)
        },
        Link::Async(p) => {
            &&& frame_inv(
                p.region@,
                p.n_roots as nat,
                p.n_slots as nat,
                p.capacity as nat,
                spec_page_size(p.page),
            )
            &&& emb_ok(
                p.region@,
                p.n_slots as nat,
                p.capacity as nat,
                spec_page_size(p.page),
                child_from_page,
                child_capacity,
            )
            &&& match p.output {
                Some(r) => output_ok(r, p.parent),
                None => true,
            }
            &&& link_ok(p.parent, p.from_page, p.capacity as nat)
        },
    }
}

/// The views of the frames behind `l`, outermost first.
pub closed spec fn link_models(l: Link) -> Seq<FrameView>
    decreases l,
{
    match l {
        Link::Base => Seq::empty(),
        Link::Sync(p) => link_models(p.parent).push(p@),
        Link::Async(p) => link_models(p.parent).push(p@),
    }
}

impl View for GcFrame {
    type V = FrameView;

    closed spec fn view(&self) -> FrameView {
        FrameView {
            slots: self.region@.subrange(FRAME_OVERHEAD as int, self.n_slots + FRAME_OVERHEAD),
            n_roots: self.n_roots as nat,
            capacity: self.capacity as nat,
            from_page: self.from_page,
            page: spec_page_size(self.page),
            is_async: false,
            output: None,
        }
    }
}

impl GcFrame {
    /// A live frame: its fields are consistent, its region is whole, and its
    /// whole parent chain is well formed.
    pub closed spec fn wf(&self) -> bool {
        &&& frame_inv(
            self.region@,
            self.n_roots as nat,
            self.n_slots as nat,
            self.capacity as nat,
            spec_page_size(self.page),
        )
        &&& self.region@.len() == self.capacity + FRAME_OVERHEAD
        &&& link_ok(self.parent, self.from_page, self.capacity as nat)
    }

    /// The views of this frame's ancestors, outermost first.
    pub closed spec fn ancestors(&self) -> Seq<FrameView> {
        link_models(self.parent)
    }

    /// The views of this frame and its ancestors, outermost first.
    pub open spec fn models(&self) -> Seq<FrameView> {
        self.ancestors().push(self@)
    }

    /// Creates a top-level frame over the whole stack buffer, publishing
    /// `capacity` zero-filled slots. Fails, handing the stack back, when the
    /// buffer cannot hold the requested slots and the frame header.
    pub fn new(stack: Stack, capacity: usize) -> (r: Result<GcFrame, (Stack, JlrsError)>)
        requires
            stack.wf(),
        ensures
            match r {
                Ok(f) => {
                    &&& capacity + FRAME_OVERHEAD <= stack@.len()
                    &&& f.wf()
                    &&& f@ == (FrameView {
                        slots: zeros(capacity as nat),
                        n_roots: 0,
                        capacity: (stack@.len() - FRAME_OVERHEAD) as nat,
                        from_page: false,
                        page: None,
                        is_async: false,
                        output: None,
                    })
                    &&& f.ancestors() == Seq::<FrameView>::empty()
                },
                Err((s, e)) => {
                    &&& stack@.len() < capacity + FRAME_OVERHEAD
                    &&& s == stack
                    &&& e == stack_overflow(capacity as nat, stack@.len())
                },
            },
    {
        let size = stack.size();
        if size < FRAME_OVERHEAD || capacity > size - FRAME_OVERHEAD {
            return Err((stack, JlrsError::AllocError(AllocError::StackOverflow(capacity, size))));
        }
        let region = stack.into_mem();
        let f = from_region(region, capacity, Link::Base, false);
        proof {
            assert(f.ancestors() =~= Seq::<FrameView>::empty());
        }
        Ok(f)
    }

    /// The number of values currently rooted in this frame.
    pub fn n_roots(&self) -> (r: usize)
        ensures
            r == self@.n_roots,
    {
        self.n_roots
    }

    /// The number of slots currently published to the collector.
    pub fn n_slots(&self) -> (r: usize)
        requires
            self.wf(),
        ensures
            r == self@.n_slots(),
    {
        self.n_slots
    }

    /// The maximum number of slots this frame can use.
    pub fn capacity(&self) -> (r: usize)
        ensures
            r == self@.capacity,
    {
        self.capacity
    }

    /// The contents of the published slot `idx`.
    pub fn slot_value(&self, idx: usize) -> (r: usize)
        requires
            self.wf(),
            idx < self@.n_slots(),
        ensures
            r == self@.slots[idx as int],
    {
        self.region[idx + FRAME_OVERHEAD]
    }

    /// Whether this frame currently owns an overflow page for its children.
    pub fn has_overflow_page(&self) -> (r: bool)
        ensures
            r == (self@.page is Some),
    {
        self.page.is_some()
    }

    /// The size, in slots, of the overflow page this frame owns, if any.
    pub fn overflow_page_size(&self) -> (r: Option<usize>)
        ensures
            match r {
                Some(sz) => self@.page == Some(sz as nat),
                None => self@.page is None,
            },
    {
        match &self.page {
            Some(p) => Some(p.size()),
            None => None,
        }
    }

    /// Whether this frame's own region is an overflow page rather than a
    /// carved piece of its parent's region.
    pub fn on_overflow_page(&self) -> (r: bool)
        ensures
            r == self@.from_page,
    {
        self.from_page
    }

    /// Roots `value` in the next free slot and returns that slot's index.
    /// When every slot up to the capacity already holds a root, the frame is
    /// saturated: the call fails with a frame-overflow error and writes
    /// nothing.
    pub fn root(&mut self, value: usize) -> (r: Result<usize, JlrsError>)
        requires
            old(self).wf(),
        ensures
            final(self).wf(),
            final(self).ancestors() == old(self).ancestors(),
            match r {
                Ok(idx) => {
                    &&& old(self)@.n_roots < old(self)@.capacity
                    &&& idx == old(self)@.n_roots
                    &&& final(self)@ == root_model(old(self)@, value)
                },
                Err(e) => {
                    &&& old(self)@.n_roots == old(self)@.capacity
                    &&& e == frame_overflow(old(self)@.capacity)
                    &&& *final(self) == *old(self)
                },
            },
    {
        if self.n_roots == self.capacity {
            return Err(JlrsError::AllocError(AllocError::FrameOverflow(1, self.capacity)));
        }
        let idx = self.n_roots;
        self.region.set(idx + FRAME_OVERHEAD, value);
        if idx == self.n_slots {
            self.n_slots = idx + 1;
            self.region.set(0, 2 * self.n_slots);
        }
        self.n_roots = idx + 1;
        proof {
            assert(self@.slots =~= root_model(old(self)@, value).slots);
        }
        Ok(idx)
    }

    /// Publishes `additional` more slots, zero-filled so the collector never
    /// observes stale contents. Returns `false`, mutating nothing, when the
    /// grown slot count would exceed the capacity.
    pub fn alloc_slots(&mut self, additional: usize) -> (r: bool)
        requires
            old(self).wf(),
        ensures
            final(self).wf(),
            final(self).ancestors() == old(self).ancestors(),
            r == (old(self)@.n_slots() + additional <= old(self)@.capacity),
            r ==> final(self)@ == alloc_model(old(self)@, additional as nat),
            !r ==> *final(self) == *old(self),
    {
        if additional > self.capacity - self.n_slots {
            return false;
        }
        let start = self.n_slots;
        let mut i: usize = 0;
        while i < additional
            invariant
                i <= additional,
                start + additional <= self.capacity,
                self.capacity <= MAX_FRAME_CAPACITY,
                self.n_roots == old(self).n_roots,
                self.n_slots == start,
                self.capacity == old(self).capacity,
                self.from_page == old(self).from_page,
                self.page == old(self).page,
                self.parent == old(self).parent,
                self.region@.len() == old(self).region@.len(),
                old(self).region@.len() == self.capacity + FRAME_OVERHEAD,
                forall|k: int|
                    0 <= k < start + FRAME_OVERHEAD ==> self.region@[k] == old(self).region@[k],
                forall|k: int|
                    start + FRAME_OVERHEAD <= k < start + FRAME_OVERHEAD + i ==> self.region@[k]
                        == 0,
            decreases additional - i,
        {
            self.region.set(start + FRAME_OVERHEAD + i, 0);
            i = i + 1;
        }
        self.n_slots = start + additional;
        self.region.set(0, 2 * self.n_slots);
        proof {
            assert(self@.slots =~= alloc_model(old(self)@, additional as nat).slots);
        }
        true
    }

    /// Nests a child frame requesting `capacity` slots. When the request fits
    /// in this frame's unused region, the child borrows that tail and no page
    /// is allocated or touched; otherwise the child's region is an overflow
    /// page — this frame's existing page when it is large enough, else a
    /// fresh one sized exactly to the request. The child owns this frame
    /// until it is popped.
    pub fn nest(self, capacity: usize) -> (c: GcFrame)
        requires
            self.wf(),
            capacity <= MAX_FRAME_CAPACITY,
        ensures
            c.wf(),
            c@ == child_model(self@, capacity as nat, false, None::<OutputView>),
            c.ancestors() == self.ancestors().push(parent_after_nest(self@, capacity as nat)),
    {
        let ghost m = self@;
        let ghost anc = self.ancestors();
        let mut this = self;
        let request = if capacity > MIN_FRAME_CAPACITY {
            capacity
        } else {
            MIN_FRAME_CAPACITY
        };
        let needed = request + FRAME_OVERHEAD;
        let used = this.n_slots + FRAME_OVERHEAD;
        if needed <= this.region.len() - used {
            let child_region = this.region.split_off(used);
            proof {
                assert(fits(m, capacity as nat));
                assert(this@.slots =~= m.slots);
                assert(this@ =~= parent_after_nest(m, capacity as nat));
            }
            let link = Link::Sync(Box::new(this));
            proof {
                assert(link_models(link) =~= anc.push(parent_after_nest(m, capacity as nat)));
            }
            let c = from_region(child_region, capacity, link, false);
            proof {
                assert(c@ =~= child_model(m, capacity as nat, false, None::<OutputView>));
            }
            c
        } else {
            let existing = this.page.take();
            let page_mem: Vec<usize> = match existing {
                Some(p) => {
                    if p.size() >= needed {
                        p.into_mem()
                    } else {
                        StackPage::new(needed).into_mem()
                    }
                },
                None => StackPage::new(needed).into_mem(),
            };
            proof {
                assert(!fits(m, capacity as nat));
                assert(this@ =~= parent_after_nest(m, capacity as nat));
            }
            let link = Link::Sync(Box::new(this));
            proof {
                assert(link_models(link) =~= anc.push(parent_after_nest(m, capacity as nat)));
            }
            let c = from_region(page_mem, capacity, link, true);
            proof {
                assert(c@ =~= child_model(m, capacity as nat, false, None::<OutputView>));
            }
            c
        }
    }

    /// Destroys this frame — the collector deregisters it — and restores its
    /// parent: a top-level frame hands the buffer back to the stack, a nested
    /// frame hands back its parent, whole again and owning the child's
    /// overflow page for reuse when the child had one.
    pub fn pop(self) -> (p: Parent)
        requires
            self.wf(),
        ensures
            (p is Stack) == (self.ancestors().len() == 0),
            match p {
                Parent::Stack(s) => {
                    &&& self.ancestors().len() == 0
                    &&& s.wf()
                    &&& s@.len() == self@.capacity + FRAME_OVERHEAD
                },
                Parent::Sync(f) => {
                    &&& self.ancestors().len() > 0
                    &&& !self.ancestors().last().is_async
                    &&& f.wf()
                    &&& f@ == parent_after_pop(self.ancestors().last(), self@)
                    &&& f.ancestors() == self.ancestors().drop_last()
                },
                Parent::Async(f) => {
                    &&& self.ancestors().len() > 0
                    &&& self.ancestors().last().is_async
                    &&& f.wf()
                    &&& f@ == parent_after_pop(self.ancestors().last(), self@)
                    &&& f.ancestors() == self.ancestors().drop_last()
                },
            },
    {
        let ghost slf = self;
        let GcFrame { region, n_roots: _, n_slots: _, capacity: _, from_page, page: _, parent } =
            self;
        match parent {
            Link::Base => Parent::Stack(Stack::from_mem(region)),
            Link::Sync(boxed) => {
                let mut par = *boxed;
                if from_page {
                    par.page = Some(StackPage::from_mem(region));
                } else {
                    let mut tail = region;
                    par.region.append(&mut tail);
                }
                proof {
                    assert(par@.slots =~= slf.ancestors().last().slots);
                    assert(par@ =~= parent_after_pop(slf.ancestors().last(), slf@));
                    assert(par.ancestors() =~= slf.ancestors().drop_last());
                }
                Parent::Sync(par)
            },
            Link::Async(boxed) => {
                let mut par = *boxed;
                if from_page {
                    par.page = Some(StackPage::from_mem(region));
                } else {
                    let mut tail = region;
                    par.region.append(&mut tail);
                }
                proof {
                    assert(par@.slots =~= slf.ancestors().last().slots);
                    assert(par@ =~= parent_after_pop(slf.ancestors().last(), slf@));
                    assert(par.ancestors() =~= slf.ancestors().drop_last());
                }
                Parent::Async(par)
            },
        }
    }
}

/// Builds a frame over `region`, publishing `capacity` zero-filled slots and
/// writing the packed slot count and a cleared previous-top link into the
/// header. `parent` must already satisfy the chain constraints for a child
/// region of this size living on a page (`from_page`) or carved from the
/// parent's region.
fn from_region(region: Vec<usize>, capacity: usize, parent: Link, from_page: bool) -> (c: GcFrame)
    requires
        capacity + FRAME_OVERHEAD <= region@.len(),
        region@.len() <= MAX_FRAME_CAPACITY + FRAME_OVERHEAD,
        link_ok(parent, from_page, (region@.len() - FRAME_OVERHEAD) as nat),
    ensures
        c.wf(),
        c@ == (FrameView {
            slots: zeros(capacity as nat),
            n_roots: 0,
            capacity: (region@.len() - FRAME_OVERHEAD) as nat,
            from_page,
            page: None,
            is_async: false,
            output: None,
        }),
        c.ancestors() == link_models(parent),
{
    let ghost orig = region@;
    let mut reg = region;
    let cap_total = reg.len() - FRAME_OVERHEAD;
    reg.set(0, 2 * capacity);
    reg.set(1, 0);
    let mut i: usize = 0;
    while i < capacity
        invariant
            i <= capacity,
            capacity + FRAME_OVERHEAD <= reg@.len(),
            reg@.len() == orig.len(),
            reg@[0] == 2 * capacity,
            forall|k: int| FRAME_OVERHEAD <= k < FRAME_OVERHEAD + i ==> reg@[k] == 0,
        decreases capacity - i,
    {
        reg.set(i + FRAME_OVERHEAD, 0);
        i = i + 1;
    }
    let c = GcFrame {
        region: reg,
        n_roots: 0,
        n_slots: capacity,
        capacity: cap_total,
        from_page,
        page: None,
        parent,
    };
    proof {
        assert(c@.slots =~= zeros(capacity as nat));
    }
    c
}

/// A suspension-safe frame, for cooperative tasks that interleave on one
/// physical stack. It has the same rooting, growth and nesting contract as
/// [`GcFrame`], and adds output promotion: a nested child can be created
/// carrying a reservation for one slot of an ancestor frame, and the value it
/// produces is written into that slot — once — by [`AsyncGcFrame::write_output`].
/// Because a child owns its parent until it is popped, a suspended task's
/// region stays exclusively reserved across suspensions: no sibling can reach
/// it.
#[derive(Debug)]
pub struct AsyncGcFrame {
    /// The frame's region; see [`GcFrame`].
    region: Vec<usize>,
    /// How many slots hold roots.
    n_roots: usize,
    /// How many slots are published to the collector.
    n_slots: usize,
    /// The region's size minus the header overhead.
    capacity: usize,
    /// Whether the region is an overflow page.
    from_page: bool,
    /// The overflow page owned for this frame's children, if any.
    page: Option<StackPage>,
    /// The reservation this frame carries: the ancestor slot its produced
    /// value will be promoted into.
    output: Option<OutputSlot>,
    /// The frame this one was nested in.
    parent: Link,
}

impl View for AsyncGcFrame {
    type V = FrameView;

    closed spec fn view(&self) -> FrameView {
        FrameView {
            slots: self.region@.subrange(FRAME_OVERHEAD as int, self.n_slots + FRAME_OVERHEAD),
            n_roots: self.n_roots as nat,
            capacity: self.capacity as nat,
            from_page: self.from_page,
            page: spec_page_size(self.page),
            is_async: true,
            output: spec_output(self.output),
        }
    }
}

impl AsyncGcFrame {
    /// A live frame: its fields are consistent, its region is whole, its
    /// reservation (if any) points at a published root slot of a
    /// suspension-safe ancestor, and its whole parent chain is well formed.
    pub closed spec fn wf(&self) -> bool {
        &&& frame_inv(
            self.region@,
            self.n_roots as nat,
            self.n_slots as nat,
            self.capacity as nat,
            spec_page_size(self.page),
        )
        &&& self.region@.len() == self.capacity + FRAME_OVERHEAD
        &&& match self.output {
            Some(r) => output_ok(r, self.parent),
            None => true,
        }
        &&& link_ok(self.parent, self.from_page, self.capacity as nat)
    }

    /// The views of this frame's ancestors, outermost first.
    pub closed spec fn ancestors(&self) -> Seq<FrameView> {
        link_models(self.parent)
    }

    /// The views of this frame and its ancestors, outermost first.
    pub open spec fn models(&self) -> Seq<FrameView> {
        self.ancestors().push(self@)
    }

    /// Creates a top-level suspension-safe frame over the whole stack buffer,
    /// publishing `capacity` zero-filled slots. Fails, handing the stack
    /// back, when the buffer cannot hold the requested slots and the header.
    pub fn new(stack: Stack, capacity: usize) -> (r: Result<AsyncGcFrame, (Stack, JlrsError)>)
        requires
            stack.wf(),
        ensures
            match r {
                Ok(f) => {
                    &&& capacity + FRAME_OVERHEAD <= stack@.len()
                    &&& f.wf()
                    &&& f@ == (FrameView {
                        slots: zeros(capacity as nat),
                        n_roots: 0,
                        capacity: (stack@.len() - FRAME_OVERHEAD) as nat,
                        from_page: false,
                        page: None,
                        is_async: true,
                        output: None,
                    })
                    &&& f.ancestors() == Seq::<FrameView>::empty()
                },
                Err((s, e)) => {
                    &&& stack@.len() < capacity + FRAME_OVERHEAD
                    &&& s == stack
                    &&& e == stack_overflow(capacity as nat, stack@.len())
                },
            },
    {
        let size = stack.size();
        if size < FRAME_OVERHEAD || capacity > size - FRAME_OVERHEAD {
            return Err((stack, JlrsError::AllocError(AllocError::StackOverflow(capacity, size))));
        }
        let region = stack.into_mem();
        let f = from_region_async(region, capacity, Link::Base, false, None);
        proof {
            assert(f.ancestors() =~= Seq::<FrameView>::empty());
        }
        Ok(f)
    }

    /// The number of values currently rooted in this frame.
    pub fn n_roots(&self) -> (r: usize)
        ensures
            r == self@.n_roots,
    {
        self.n_roots
    }

    /// The number of slots currently published to the collector.
    pub fn n_slots(&self) -> (r: usize)
        requires
            self.wf(),
        ensures
            r == self@.n_slots(),
    {
        self.n_slots
    }

    /// The maximum number of slots this frame can use.
    pub fn capacity(&self) -> (r: usize)
        ensures
            r == self@.capacity,
    {
        self.capacity
    }

    /// The contents of the published slot `idx`.
    pub fn slot_value(&self, idx: usize) -> (r: usize)
        requires
            self.wf(),
            idx < self@.n_slots(),
        ensures
            r == self@.slots[idx as int],
    {
        self.region[idx + FRAME_OVERHEAD]
    }

    /// Whether this frame currently owns an overflow page for its children.
    pub fn has_overflow_page(&self) -> (r: bool)
        ensures
            r == (self@.page is Some),
    {
        self.page.is_some()
    }

    /// The size, in slots, of the overflow page this frame owns, if any.
    pub fn overflow_page_size(&self) -> (r: Option<usize>)
        ensures
            match r {
                Some(sz) => self@.page == Some(sz as nat),
                None => self@.page is None,
            },
    {
        match &self.page {
            Some(p) => Some(p.size()),
            None => None,
        }
    }

    /// Whether this frame's own region is an overflow page rather than a
    /// carved piece of its parent's region.
    pub fn on_overflow_page(&self) -> (r: bool)
        ensures
            r == self@.from_page,
    {
        self.from_page
    }

    /// Whether this frame carries an output reservation that has not been
    /// written yet.
    pub fn has_output(&self) -> (r: bool)
        ensures
            r == (self@.output is Some),
    {
        self.output.is_some()
    }

    /// Roots `value` in the next free slot and returns that slot's index.
    /// When every slot up to the capacity already holds a root, the frame is
    /// saturated: the call fails with a frame-overflow error and writes
    /// nothing.
    pub fn root(&mut self, value: usize) -> (r: Result<usize, JlrsError>)
        requires
            old(self).wf(),
        ensures
            final(self).wf(),
            final(self).ancestors() == old(self).ancestors(),
            match r {
                Ok(idx) => {
                    &&& old(self)@.n_roots < old(self)@.capacity
                    &&& idx == old(self)@.n_roots
                    &&& final(self)@ == root_model(old(self)@, value)
                },
                Err(e) => {
                    &&& old(self)@.n_roots == old(self)@.capacity
                    &&& e == frame_overflow(old(self)@.capacity)
                    &&& *final(self) == *old(self)
                },
            },
    {
        if self.n_roots == self.capacity {
            return Err(JlrsError::AllocError(AllocError::FrameOverflow(1, self.capacity)));
        }
        let idx = self.n_roots;
        self.region.set(idx + FRAME_OVERHEAD, value);
        if idx == self.n_slots {
            self.n_slots = idx + 1;
            self.region.set(0, 2 * self.n_slots);
        }
        self.n_roots = idx + 1;
        proof {
            assert(self@.slots =~= root_model(old(self)@, value).slots);
        }
        Ok(idx)
    }

    /// Publishes `additional` more slots, zero-filled so the collector never
    /// observes stale contents. Returns `false`, mutating nothing, when the
    /// grown slot count would exceed the capacity.
    pub fn alloc_slots(&mut self, additional: usize) -> (r: bool)
        requires
            old(self).wf(),
        ensures
            final(self).wf(),
            final(self).ancestors() == old(self).ancestors(),
            r == (old(self)@.n_slots() + additional <= old(self)@.capacity),
            r ==> final(self)@ == alloc_model(old(self)@, additional as nat),
            !r ==> *final(self) == *old(self),
    {
        if additional > self.capacity - self.n_slots {
            return false;
        }
        let start = self.n_slots;
        let mut i: usize = 0;
        while i < additional
            invariant
                i <= additional,
                start + additional <= self.capacity,
                self.capacity <= MAX_FRAME_CAPACITY,
                self.n_roots == old(self).n_roots,
                self.n_slots == start,
                self.capacity == old(self).capacity,
                self.from_page == old(self).from_page,
                self.page == old(self).page,
                self.output == old(self).output,
                self.parent == old(self).parent,
                self.region@.len() == old(self).region@.len(),
                old(self).region@.len() == self.capacity + FRAME_OVERHEAD,
                forall|k: int|
                    0 <= k < start + FRAME_OVERHEAD ==> self.region@[k] == old(self).region@[k],
                forall|k: int|
                    start + FRAME_OVERHEAD <= k < start + FRAME_OVERHEAD + i ==> self.region@[k]
                        == 0,
            decreases additional - i,
        {
            self.region.set(start + FRAME_OVERHEAD + i, 0);
            i = i + 1;
        }
        self.n_slots = start + additional;
        self.region.set(0, 2 * self.n_slots);
        proof {
            assert(self@.slots =~= alloc_model(old(self)@, additional as nat).slots);
        }
        true
    }

    /// Nests a synchronous child frame requesting `capacity` slots; the
    /// region policy is that of [`GcFrame::nest`]. This frame keeps the
    /// reservation it carries, if any. The child owns this frame until it is
    /// popped.
    pub fn nest(self, capacity: usize) -> (c: GcFrame)
        requires
            self.wf(),
            capacity <= MAX_FRAME_CAPACITY,
        ensures
            c.wf(),
            c@ == child_model(self@, capacity as nat, false, None::<OutputView>),
            c.ancestors() == self.ancestors().push(parent_after_nest(self@, capacity as nat)),
    {
        let ghost m = self@;
        let ghost anc = self.ancestors();
        let mut this = self;
        let request = if capacity > MIN_FRAME_CAPACITY {
            capacity
        } else {
            MIN_FRAME_CAPACITY
        };
        let needed = request + FRAME_OVERHEAD;
        let used = this.n_slots + FRAME_OVERHEAD;
        if needed <= this.region.len() - used {
            let child_region = this.region.split_off(used);
            proof {
                assert(fits(m, capacity as nat));
                assert(this@.slots =~= m.slots);
                assert(this@ =~= parent_after_nest(m, capacity as nat));
            }
            let link = Link::Async(Box::new(this));
            proof {
                assert(link_models(link) =~= anc.push(parent_after_nest(m, capacity as nat)));
            }
            let c = from_region(child_region, capacity, link, false);
            proof {
                assert(c@ =~= child_model(m, capacity as nat, false, None::<OutputView>));
            }
            c
        } else {
            let existing = this.page.take();
            let page_mem: Vec<usize> = match existing {
                Some(p) => {
                    if p.size() >= needed {
                        p.into_mem()
                    } else {
                        StackPage::new(needed).into_mem()
                    }
                },
                None => StackPage::new(needed).into_mem(),
            };
            proof {
                assert(!fits(m, capacity as nat));
                assert(this@ =~= parent_after_nest(m, capacity as nat));
            }
            let link = Link::Async(Box::new(this));
            proof {
                assert(link_models(link) =~= anc.push(parent_after_nest(m, capacity as nat)));
            }
            let c = from_region(page_mem, capacity, link, true);
            proof {
                assert(c@ =~= child_model(m, capacity as nat, false, None::<OutputView>));
            }
            c
        }
    }

    /// Nests a suspension-safe child frame requesting `capacity` slots,
    /// carrying no reservation; the region policy is that of
    /// [`GcFrame::nest`]. The child owns this frame until it is popped.
    pub fn nest_async(self, capacity: usize) -> (c: AsyncGcFrame)
        requires
            self.wf(),
            capacity <= MAX_FRAME_CAPACITY,
        ensures
            c.wf(),
            c@ == child_model(self@, capacity as nat, true, None::<OutputView>),
            c.ancestors() == self.ancestors().push(parent_after_nest(self@, capacity as nat)),
    {
        self.nest_async_inner(capacity, None)
    }

    /// Nests a suspension-safe child frame that carries an output
    /// reservation. When this frame already holds a reservation it is
    /// forwarded — moved — to the child; otherwise one free slot of this
    /// frame is reserved: published, zeroed and counted as a root now, to be
    /// written exactly once by the child chain. Reserving from a saturated
    /// frame (every slot up to the capacity holding a root) fails with a
    /// frame-overflow error, handing this frame back untouched.
    pub fn nest_async_with_output(self, capacity: usize) -> (r: Result<
        AsyncGcFrame,
        (AsyncGcFrame, JlrsError),
    >)
        requires
            self.wf(),
            capacity <= MAX_FRAME_CAPACITY,
        ensures
            match r {
                Ok(c) => {
                    &&& c.wf()
                    &&& match self@.output {
                        Some(ov) => {
                            &&& c@ == child_model(
                                without_output(self@),
                                capacity as nat,
                                true,
                                Some(OutputView { depth: ov.depth + 1, slot: ov.slot }),
                            )
                            &&& c.ancestors() == self.ancestors().push(
                                parent_after_nest(without_output(self@), capacity as nat),
                            )
                        },
                        None => {
                            &&& self@.n_roots < self@.capacity
                            &&& c@ == child_model(
                                root_model(self@, 0),
                                capacity as nat,
                                true,
                                Some(OutputView { depth: 1, slot: self@.n_roots }),
                            )
                            &&& c.ancestors() == self.ancestors().push(
                                parent_after_nest(root_model(self@, 0), capacity as nat),
                            )
                        },
                    }
                },
                Err((f, e)) => {
                    &&& self@.output is None
                    &&& self@.n_roots == self@.capacity
                    &&& f == self
                    &&& e == frame_overflow(self@.capacity)
                },
            },
    {
        let mut this = self;
        let taken = this.output.take();
        match taken {
            Some(res) => {
                let fwd = OutputSlot::Forwarded(Box::new(res));
                let c = this.nest_async_inner(capacity, Some(fwd));
                Ok(c)
            },
            None => {
                if this.n_roots == this.capacity {
                    let e = JlrsError::AllocError(AllocError::FrameOverflow(1, this.capacity));
                    return Err((this, e));
                }
                let slot = this.n_roots;
                let rooted = this.root(0);
                proof {
                    assert(rooted is Ok);
                }
                let c = this.nest_async_inner(capacity, Some(OutputSlot::InParent(slot)));
                Ok(c)
            },
        }
    }

    /// Writes `value` into the reserved ancestor slot this frame carries and
    /// clears the reservation, so the write happens exactly once: the target
    /// frame ends up with the promoted value as one of its roots. Returns
    /// `false`, mutating nothing, when no reservation is carried.
    pub fn write_output(&mut self, value: usize) -> (r: bool)
        requires
            old(self).wf(),
        ensures
            final(self).wf(),
            r == (old(self)@.output is Some),
            match old(self)@.output {
                Some(ov) => {
                    &&& final(self)@ == without_output(old(self)@)
                    &&& final(self).ancestors() == promoted(
                        old(self).ancestors(),
                        ov.depth,
                        ov.slot,
                        value,
                    )
                },
                None => *final(self) == *old(self),
            },
    {
        let taken = self.output.take();
        match taken {
            Some(res) => {
                let mut link = Link::Base;
                core::mem::swap(&mut link, &mut self.parent);
                let link2 = link_store(
                    link,
                    res,
                    value,
                    Ghost(self.from_page),
                    Ghost(self.capacity as nat),
                );
                self.parent = link2;
                proof {
                    assert(self@ =~= without_output(old(self)@));
                }
                true
            },
            None => false,
        }
    }

    /// Destroys this frame — the collector deregisters it, and any unwritten
    /// reservation it carries lapses — and restores its parent, exactly as
    /// [`GcFrame::pop`] does.
    pub fn pop(self) -> (p: Parent)
        requires
            self.wf(),
        ensures
            (p is Stack) == (self.ancestors().len() == 0),
            match p {
                Parent::Stack(s) => {
                    &&& self.ancestors().len() == 0
                    &&& s.wf()
                    &&& s@.len() == self@.capacity + FRAME_OVERHEAD
                },
                Parent::Sync(f) => {
                    &&& self.ancestors().len() > 0
                    &&& !self.ancestors().last().is_async
                    &&& f.wf()
                    &&& f@ == parent_after_pop(self.ancestors().last(), self@)
                    &&& f.ancestors() == self.ancestors().drop_last()
                },
                Parent::Async(f) => {
                    &&& self.ancestors().len() > 0
                    &&& self.ancestors().last().is_async
                    &&& f.wf()
                    &&& f@ == parent_after_pop(self.ancestors().last(), self@)
                    &&& f.ancestors() == self.ancestors().drop_last()
                },
            },
    {
        let ghost slf = self;
        let AsyncGcFrame {
            region,
            n_roots: _,
            n_slots: _,
            capacity: _,
            from_page,
            page: _,
            output: _,
            parent,
        } = self;
        match parent {
            Link::Base => Parent::Stack(Stack::from_mem(region)),
            Link::Sync(boxed) => {
                let mut par = *boxed;
                if from_page {
                    par.page = Some(StackPage::from_mem(region));
                } else {
                    let mut tail = region;
                    par.region.append(&mut tail);
                }
                proof {
                    assert(par@.slots =~= slf.ancestors().last().slots);
                    assert(par@ =~= parent_after_pop(slf.ancestors().last(), slf@));
                    assert(par.ancestors() =~= slf.ancestors().drop_last());
                }
                Parent::Sync(par)
            },
            Link::Async(boxed) => {
                let mut par = *boxed;
                if from_page {
                    par.page = Some(StackPage::from_mem(region));
                } else {
                    let mut tail = region;
                    par.region.append(&mut tail);
                }
                proof {
                    assert(par@.slots =~= slf.ancestors().last().slots);
                    assert(par@ =~= parent_after_pop(slf.ancestors().last(), slf@));
                    assert(par.ancestors() =~= slf.ancestors().drop_last());
                }
                Parent::Async(par)
            },
        }
    }

    /// Nests a suspension-safe child carrying `output`, whose path must be
    /// valid against this frame as the child's immediate parent.
    fn nest_async_inner(self, capacity: usize, output: Option<OutputSlot>) -> (c: AsyncGcFrame)
        requires
            self.wf(),
            capacity <= MAX_FRAME_CAPACITY,
            match output {
                Some(OutputSlot::InParent(slot)) => slot < self.n_roots,
                Some(OutputSlot::Forwarded(inner)) => output_ok(*inner, self.parent),
                None => true,
            },
        ensures
            c.wf(),
            c@ == child_model(self@, capacity as nat, true, spec_output(output)),
            c.ancestors() == self.ancestors().push(parent_after_nest(self@, capacity as nat)),
    {
        let ghost m = self@;
        let ghost anc = self.ancestors();
        let mut this = self;
        let request = if capacity > MIN_FRAME_CAPACITY {
            capacity
        } else {
            MIN_FRAME_CAPACITY
        };
        let needed = request + FRAME_OVERHEAD;
        let used = this.n_slots + FRAME_OVERHEAD;
        if needed <= this.region.len() - used {
            let child_region = this.region.split_off(used);
            proof {
                assert(fits(m, capacity as nat));
                assert(this@.slots =~= m.slots);
                assert(this@ =~= parent_after_nest(m, capacity as nat));
            }
            let link = Link::Async(Box::new(this));
            proof {
                assert(link_models(link) =~= anc.push(parent_after_nest(m, capacity as nat)));
            }
            let c = from_region_async(child_region, capacity, link, false, output);
            proof {
                assert(c@ =~= child_model(m, capacity as nat, true, spec_output(output)));
            }
            c
        } else {
            let existing = this.page.take();
            let page_mem: Vec<usize> = match existing {
                Some(p) => {
                    if p.size() >= needed {
                        p.into_mem()
                    } else {
                        StackPage::new(needed).into_mem()
                    }
                },
                None => StackPage::new(needed).into_mem(),
            };
            proof {
                assert(!fits(m, capacity as nat));
                assert(this@ =~= parent_after_nest(m, capacity as nat));
            }
            let link = Link::Async(Box::new(this));
            proof {
                assert(link_models(link) =~= anc.push(parent_after_nest(m, capacity as nat)));
            }
            let c = from_region_async(page_mem, capacity, link, true, output);
            proof {
                assert(c@ =~= child_model(m, capacity as nat, true, spec_output(output)));
            }
            c
        }
    }
}

/// Builds a suspension-safe frame over `region`, exactly as `from_region`
/// does for synchronous frames, additionally carrying `output`, which must be
/// valid against `parent`.
fn from_region_async(
    region: Vec<usize>,
    capacity: usize,
    parent: Link,
    from_page: bool,
    output: Option<OutputSlot>,
) -> (c: AsyncGcFrame)
    requires
        capacity + FRAME_OVERHEAD <= region@.len(),
        region@.len() <= MAX_FRAME_CAPACITY + FRAME_OVERHEAD,
        link_ok(parent, from_page, (region@.len() - FRAME_OVERHEAD) as nat),
        match output {
            Some(r) => output_ok(r, parent),
            None => true,
        },
    ensures
        c.wf(),
        c@ == (FrameView {
            slots: zeros(capacity as nat),
            n_roots: 0,
            capacity: (region@.len() - FRAME_OVERHEAD) as nat,
            from_page,
            page: None,
            is_async: true,
            output: spec_output(output),
        }),
        c.ancestors() == link_models(parent),
{
    let ghost orig = region@;
    let mut reg = region;
    let cap_total = reg.len() - FRAME_OVERHEAD;
    reg.set(0, 2 * capacity);
    reg.set(1, 0);
    let mut i: usize = 0;
    while i < capacity
        invariant
            i <= capacity,
            capacity + FRAME_OVERHEAD <= reg@.len(),
            reg@.len() == orig.len(),
            reg@[0] == 2 * capacity,
            forall|k: int| FRAME_OVERHEAD <= k < FRAME_OVERHEAD + i ==> reg@[k] == 0,
        decreases capacity - i,
    {
        reg.set(i + FRAME_OVERHEAD, 0);
        i = i + 1;
    }
    let c = AsyncGcFrame {
        region: reg,
        n_roots: 0,
        n_slots: capacity,
        capacity: cap_total,
        from_page,
        page: None,
        output,
        parent,
    };
    proof {
        assert(c@.slots =~= zeros(capacity as nat));
    }
    c
}

/// Walks the parent chain along the reservation `o` and writes `value` into
/// the reserved slot of the target frame; everything else in the chain is
/// untouched, and every reservation that was valid against the chain stays
/// valid.
fn link_store(
    l: Link,
    o: OutputSlot,
    value: usize,
    Ghost(cfp): Ghost<bool>,
    Ghost(ccap): Ghost<nat>,
) -> (r: Link)
    requires
        link_ok(l, cfp, ccap),
        output_ok(o, l),
    ensures
        link_ok(r, cfp, ccap),
        forall|o2: OutputSlot| output_ok(o2, l) ==> output_ok(o2, r),
        link_models(r) == promoted(
            link_models(l),
            output_view(o).depth,
            output_view(o).slot,
            value,
        ),
    decreases o,
{
    match l {
        Link::Async(boxed) => {
            let mut f = *boxed;
            match o {
                OutputSlot::InParent(slot) => {
                    proof {
                        lemma_output_depth(o, Link::Async(Box::new(f)));
                    }
                    let ghost f0 = f;
                    f.region.set(slot + FRAME_OVERHEAD, value);
                    let r = Link::Async(Box::new(f));
                    proof {
                        assert(f@.slots =~= f0@.slots.update(slot as int, value));
                        assert forall|o2: OutputSlot|
                            output_ok(o2, Link::Async(Box::new(f0))) implies output_ok(
                            o2,
                            r,
                        ) by {
                            match o2 {
                                OutputSlot::InParent(_) => {},
                                OutputSlot::Forwarded(_) => {},
                            }
                        }
                        assert(link_models(r) =~= promoted(
                            link_models(Link::Async(Box::new(f0))),
                            1,
                            slot as nat,
                            value,
                        ));
                    }
                    r
                },
                OutputSlot::Forwarded(inner) => {
                    let ghost f0 = f;
                    let ghost inner0 = *inner;
                    proof {
                        lemma_output_depth(inner0, f.parent);
                    }
                    let p = f.parent;
                    let p2 = link_store(p, *inner, value, Ghost(f.from_page), Ghost(f.capacity as nat));
                    f.parent = p2;
                    let r = Link::Async(Box::new(f));
                    proof {
                        assert forall|o2: OutputSlot|
                            output_ok(o2, Link::Async(Box::new(f0))) implies output_ok(
                            o2,
                            r,
                        ) by {
                            match o2 {
                                OutputSlot::InParent(_) => {},
                                OutputSlot::Forwarded(i2) => {
                                    assert(output_ok(*i2, f0.parent) ==> output_ok(*i2, p2));
                                },
                            }
                        }
                        assert(link_models(r) =~= promoted(
                            link_models(Link::Async(Box::new(f0))),
                            output_view(inner0).depth + 1,
                            output_view(inner0).slot,
                            value,
                        ));
                    }
                    r
                },
            }
        },
        Link::Base => {
            proof {
                assert(false);
            }
            Link::Base
        },
        Link::Sync(boxed) => {
            proof {
                assert(false);
            }
            Link::Sync(boxed)
        },
    }
}

/// A reservation valid against a chain reaches at least one and at most as
/// many frames up as the chain holds.
proof fn lemma_output_depth(o: OutputSlot, l: Link)
    requires
        output_ok(o, l),
    ensures
        1 <= output_view(o).depth <= link_models(l).len(),
    decreases o,
{
    match o {
        OutputSlot::InParent(_) => {},
        OutputSlot::Forwarded(inner) => {
            match l {
                Link::Async(f) => {
                    lemma_output_depth(*inner, f.parent);
                },
                _ => {},
            }
        },
    }
}

/// A frame with no capacity at all. It satisfies a calling convention that
/// requires a frame to be present for read-only borrows of foreign data, but
/// registers nothing: it cannot root values and cannot nest children. Every
/// operation that would need a root fails with [`JlrsError::NullFrame`].
#[derive(Debug)]
pub struct NullFrame {
    _private: (),
}

impl NullFrame {
    /// Creates the zero-capacity marker frame.
    pub fn new() -> (f: NullFrame) {
        NullFrame { _private: () }
    }

    /// The number of values rooted in this frame: always zero.
    pub fn n_roots(&self) -> (r: usize)
        ensures
            r == 0,
    {
        0
    }

    /// The number of slots allocated to this frame: always zero.
    pub fn n_slots(&self) -> (r: usize)
        ensures
            r == 0,
    {
        0
    }

    /// The maximum number of slots this frame can use: always zero.
    pub fn capacity(&self) -> (r: usize)
        ensures
            r == 0,
    {
        0
    }

    /// Rooting always fails on a null frame; the frame is left untouched and
    /// the stack is never written.
    pub fn root(&mut self, value: usize) -> (r: Result<usize, JlrsError>)
        ensures
            r == Err::<usize, JlrsError>(JlrsError::NullFrame),
    {
        let _ = value;
        Err(JlrsError::NullFrame)
    }

    /// A null frame can never grow: the call fails without mutation.
    pub fn alloc_slots(&mut self, additional: usize) -> (r: bool)
        ensures
            r == false,
    {
        let _ = additional;
        false
    }
}

} // verus!
