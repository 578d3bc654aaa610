use jlrs::error::{AllocError, JlrsError};
use jlrs::memory::frame::{GcFrame, NullFrame, Parent};
use jlrs::memory::stack::{Stack, MIN_FRAME_CAPACITY};

fn unwrap_sync(p: Parent) -> GcFrame {
    match p {
        Parent::Sync(f) => f,
        _ => panic!("expected a synchronous parent"),
    }
}

#[test]
fn root_sequence_counts() {
    let stack = Stack::with_size(32);
    let mut frame = GcFrame::new(stack, 8).unwrap();
    for i in 0..5usize {
        let idx = frame.root(100 + i).unwrap();
        assert_eq!(idx, i);
        assert_eq!(frame.n_roots(), i + 1);
        assert!(frame.n_slots() >= frame.n_roots());
    }
    for i in 0..5usize {
        assert_eq!(frame.slot_value(i), 100 + i);
    }
}

#[test]
fn root_three_then_reject() {
    let stack = Stack::with_size(5);
    let mut frame = GcFrame::new(stack, 3).unwrap();
    assert_eq!(frame.capacity(), 3);
    assert_eq!(frame.root(0xa0).unwrap(), 0);
    assert_eq!(frame.root(0xb0).unwrap(), 1);
    assert_eq!(frame.root(0xc0).unwrap(), 2);
    assert_eq!(frame.n_roots(), 3);
    let rejected = frame.root(0xd0);
    assert_eq!(
        rejected,
        Err(JlrsError::AllocError(AllocError::FrameOverflow(1, 3)))
    );
    assert_eq!(frame.n_roots(), 3);
    assert_eq!(frame.slot_value(2), 0xc0);
}

#[test]
fn zero_capacity_request_gets_floor() {
    let stack = Stack::with_size(MIN_FRAME_CAPACITY + 2);
    let mut frame = GcFrame::new(stack, 0).unwrap();
    assert!(frame.capacity() >= MIN_FRAME_CAPACITY);
    assert_eq!(frame.n_slots(), 0);
    assert!(!frame.alloc_slots(MIN_FRAME_CAPACITY + 1));
    assert_eq!(frame.n_slots(), 0);
    assert!(frame.alloc_slots(1));
    assert_eq!(frame.n_slots(), 1);
    assert_eq!(frame.slot_value(0), 0);
}

#[test]
fn alloc_slots_zero_fills() {
    let stack = Stack::with_size(40);
    let mut frame = GcFrame::new(stack, 2).unwrap();
    assert!(frame.alloc_slots(4));
    assert_eq!(frame.n_slots(), 6);
    for i in 0..6usize {
        assert_eq!(frame.slot_value(i), 0);
    }
}

#[test]
fn nest_within_region_no_page() {
    let stack = Stack::with_size(100);
    let frame = GcFrame::new(stack, 4).unwrap();
    assert_eq!(frame.capacity(), 98);
    let child = frame.nest(10);
    assert!(!child.on_overflow_page());
    assert!(!child.has_overflow_page());
    assert_eq!(child.capacity(), 92);
    let parent = unwrap_sync(child.pop());
    assert!(!parent.has_overflow_page());
    assert_eq!(parent.capacity(), 98);
}

#[test]
fn nest_overflow_allocates_page() {
    let stack = Stack::with_size(20);
    let mut frame = GcFrame::new(stack, 6).unwrap();
    assert_eq!(frame.capacity(), 18);
    frame.root(1).unwrap();
    let child = frame.nest(50);
    assert!(child.on_overflow_page());
    assert!(child.capacity() >= 50);
    let parent = unwrap_sync(child.pop());
    assert_eq!(parent.capacity(), 18);
    assert_eq!(parent.n_roots(), 1);
    assert_eq!(parent.slot_value(0), 1);
    let page = parent.overflow_page_size().unwrap();
    assert!(page >= 50 + 2);
}

#[test]
fn nest_reuses_large_page() {
    let stack = Stack::with_size(10);
    let frame = GcFrame::new(stack, 8).unwrap();
    let child = frame.nest(50);
    assert!(child.on_overflow_page());
    let parent = unwrap_sync(child.pop());
    assert_eq!(parent.overflow_page_size(), Some(52));
    let second = parent.nest(20);
    assert!(second.on_overflow_page());
    assert_eq!(second.capacity(), 50);
    let parent = unwrap_sync(second.pop());
    assert_eq!(parent.overflow_page_size(), Some(52));
}

#[test]
fn lifo_nest_preserves_parent() {
    let stack = Stack::with_size(200);
    let mut frame = GcFrame::new(stack, 2).unwrap();
    frame.root(41).unwrap();
    frame.root(43).unwrap();
    let mut child = frame.nest(3);
    child.root(7).unwrap();
    child.root(8).unwrap();
    assert_eq!(child.n_roots(), 2);
    let parent = unwrap_sync(child.pop());
    assert_eq!(parent.n_roots(), 2);
    assert_eq!(parent.slot_value(0), 41);
    assert_eq!(parent.slot_value(1), 43);
}

#[test]
fn deep_nesting_unwinds_in_order() {
    let stack = Stack::with_size(400);
    let outer = GcFrame::new(stack, 0).unwrap();
    let outer_capacity = outer.capacity();
    let mid = outer.nest(4);
    let inner = mid.nest(4);
    let mid = unwrap_sync(inner.pop());
    let outer = unwrap_sync(mid.pop());
    assert_eq!(outer.capacity(), outer_capacity);
    match outer.pop() {
        Parent::Stack(s) => assert_eq!(s.size(), 400),
        _ => panic!("expected the stack back"),
    }
}

#[test]
fn saturation_checked_sync() {
    let stack = Stack::with_size(4);
    let mut frame = GcFrame::new(stack, 2).unwrap();
    frame.root(5).unwrap();
    frame.root(6).unwrap();
    let rejected = frame.root(7);
    assert_eq!(
        rejected,
        Err(JlrsError::AllocError(AllocError::FrameOverflow(1, 2)))
    );
}

#[test]
fn stack_overflow_on_base_frame() {
    let stack = Stack::with_size(3);
    match GcFrame::new(stack, 5) {
        Ok(_) => panic!("a frame of capacity 5 cannot fit in 3 slots"),
        Err((stack, e)) => {
            assert_eq!(e, JlrsError::AllocError(AllocError::StackOverflow(5, 3)));
            assert_eq!(stack.size(), 3);
        }
    }
}

#[test]
fn base_frame_returns_buffer_to_stack() {
    let stack = Stack::with_size(30);
    let frame = GcFrame::new(stack, 1).unwrap();
    match frame.pop() {
        Parent::Stack(s) => assert_eq!(s.size(), 30),
        _ => panic!("a top-level frame pops back to the stack"),
    }
}

#[test]
fn null_frame_rejects_rooting() {
    let mut frame = NullFrame::new();
    assert_eq!(frame.capacity(), 0);
    assert_eq!(frame.n_roots(), 0);
    assert_eq!(frame.n_slots(), 0);
    assert_eq!(frame.root(1), Err(JlrsError::NullFrame));
    assert!(!frame.alloc_slots(1));
}

#[test]
fn default_stack_is_generous() {
    let stack = Stack::new();
    assert_eq!(stack.size(), jlrs::memory::stack::DEFAULT_STACK_SIZE);
    let frame = GcFrame::new(stack, 64).unwrap();
    assert!(frame.capacity() >= 64);
}
