use jlrs::error::{AllocError, JlrsError};
use jlrs::memory::frame::{AsyncGcFrame, Parent};
use jlrs::memory::stack::Stack;

fn unwrap_async(p: Parent) -> AsyncGcFrame {
    match p {
        Parent::Async(f) => f,
        _ => panic!("expected a suspension-safe parent"),
    }
}

#[test]
fn nested_value_frame() {
    let stack = Stack::new();
    let f1 = AsyncGcFrame::new(stack, 1).unwrap();
    let f2 = f1.nest_async_with_output(0).unwrap();
    let mut f3 = f2.nest_async_with_output(0).unwrap();
    assert!(f3.write_output(1));
    let f2 = unwrap_async(f3.pop());
    let f1 = unwrap_async(f2.pop());
    let out = f1.slot_value(0);
    assert_eq!(out, 1);
}

#[test]
fn nested_call_frame() {
    let stack = Stack::new();
    let f1 = AsyncGcFrame::new(stack, 1).unwrap();
    let f2 = f1.nest_async_with_output(0).unwrap();
    let mut f3 = f2.nest_async_with_output(2).unwrap();
    let v1 = f3.root(1).unwrap();
    let v2 = f3.root(2).unwrap();
    let sum = f3.slot_value(v1) + f3.slot_value(v2);
    assert!(f3.write_output(sum));
    let f2 = unwrap_async(f3.pop());
    let f1 = unwrap_async(f2.pop());
    let out = f1.slot_value(0);
    assert_eq!(out, 3);
}

#[test]
fn promotion_adds_exactly_one_root() {
    let stack = Stack::with_size(64);
    let mut f1 = AsyncGcFrame::new(stack, 0).unwrap();
    f1.root(42).unwrap();
    let before = f1.n_roots();
    let mut f2 = f1.nest_async_with_output(0).unwrap();
    assert!(f2.has_output());
    f2.root(1000).unwrap();
    assert!(f2.write_output(7));
    assert!(!f2.has_output());
    let f1 = unwrap_async(f2.pop());
    assert_eq!(f1.n_roots(), before + 1);
    assert_eq!(f1.slot_value(0), 42);
    assert_eq!(f1.slot_value(1), 7);
}

#[test]
fn write_output_happens_once() {
    let stack = Stack::with_size(64);
    let f1 = AsyncGcFrame::new(stack, 0).unwrap();
    let mut f2 = f1.nest_async_with_output(0).unwrap();
    assert!(f2.write_output(5));
    assert!(!f2.write_output(6));
    let f1 = unwrap_async(f2.pop());
    assert_eq!(f1.slot_value(0), 5);
}

#[test]
fn unwritten_reservation_reads_zero() {
    let stack = Stack::with_size(64);
    let f1 = AsyncGcFrame::new(stack, 0).unwrap();
    let f2 = f1.nest_async_with_output(0).unwrap();
    let f1 = unwrap_async(f2.pop());
    assert_eq!(f1.n_roots(), 1);
    assert_eq!(f1.slot_value(0), 0);
}

#[test]
fn reservation_on_saturated_frame_fails() {
    let stack = Stack::with_size(4);
    let mut f1 = AsyncGcFrame::new(stack, 2).unwrap();
    f1.root(1).unwrap();
    f1.root(2).unwrap();
    match f1.nest_async_with_output(0) {
        Ok(_) => panic!("a saturated frame has no slot to reserve"),
        Err((f1, e)) => {
            assert_eq!(e, JlrsError::AllocError(AllocError::FrameOverflow(1, 2)));
            assert_eq!(f1.n_roots(), 2);
        }
    }
}

#[test]
fn saturation_checked_async() {
    let stack = Stack::with_size(4);
    let mut f1 = AsyncGcFrame::new(stack, 2).unwrap();
    f1.root(1).unwrap();
    f1.root(2).unwrap();
    let rejected = f1.root(3);
    assert_eq!(
        rejected,
        Err(JlrsError::AllocError(AllocError::FrameOverflow(1, 2)))
    );
}

#[test]
fn forwarding_carries_reservation_deep() {
    let stack = Stack::with_size(20);
    let f1 = AsyncGcFrame::new(stack, 0).unwrap();
    let mut f2 = f1.nest_async_with_output(0).unwrap();
    for i in 0..f2.capacity() {
        f2.root(i).unwrap();
    }
    assert_eq!(f2.n_roots(), f2.capacity());
    let mut f3 = f2.nest_async_with_output(0).unwrap();
    assert!(f3.has_output());
    assert!(f3.write_output(9));
    let f2 = unwrap_async(f3.pop());
    assert!(!f2.has_output());
    let f1 = unwrap_async(f2.pop());
    assert_eq!(f1.slot_value(0), 9);
}

#[test]
fn async_frame_nests_sync_child() {
    let stack = Stack::with_size(100);
    let f1 = AsyncGcFrame::new(stack, 0).unwrap();
    let mut child = f1.nest(4);
    child.root(11).unwrap();
    assert_eq!(child.n_roots(), 1);
    let f1 = unwrap_async(child.pop());
    assert_eq!(f1.n_roots(), 0);
}

#[test]
fn async_nest_overflow_page_sized_to_request() {
    let stack = Stack::with_size(20);
    let f1 = AsyncGcFrame::new(stack, 6).unwrap();
    let child = f1.nest_async(50);
    assert!(child.on_overflow_page());
    assert!(child.capacity() >= 50);
    let f1 = unwrap_async(child.pop());
    assert!(f1.overflow_page_size().unwrap() >= 52);
    assert_eq!(f1.capacity(), 18);
}
