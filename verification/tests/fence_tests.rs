use frame_pipeline::fence::{drain_wait, wait_and_advance, Fence};
use frame_pipeline::swapchain::{SwapChain, FRAME_COUNT};

#[test]
fn fence_starts_at_zero() {
    let f = Fence::new();
    assert_eq!(f.submitted, 0);
    assert_eq!(f.completed, 0);
}

#[test]
fn signal_enqueues_without_touching_the_gpu_view() {
    let mut f = Fence::new();
    f.signal(1);
    assert_eq!(f.submitted, 1);
    assert_eq!(f.completed_value(), 0);
}

#[test]
fn completed_never_decreases_and_never_passes_submitted() {
    let mut f = Fence::new();
    f.signal(1);
    f.gpu_complete(1);
    f.signal(2);
    f.signal(3);
    assert_eq!(f.completed_value(), 1);
    f.gpu_complete(2);
    assert_eq!(f.completed_value(), 2);
    f.gpu_complete(3);
    assert_eq!(f.completed_value(), 3);
    assert!(f.completed <= f.submitted);
}

#[test]
fn wait_blocks_until_the_target_value() {
    let mut f = Fence::new();
    f.signal(5);
    assert!(f.completed_value() < 5);
    f.wait_until(5);
    assert_eq!(f.completed_value(), 5);
    // Waiting for an already completed value changes nothing.
    f.wait_until(3);
    assert_eq!(f.completed_value(), 5);
}

#[test]
fn wait_and_advance_signals_waits_and_requeries_the_index() {
    let mut f = Fence::new();
    let chain = SwapChain {
        buffer_count: FRAME_COUNT,
        current_index: 1,
    };
    let (next, index) = wait_and_advance(&mut f, &chain, 1);
    assert_eq!(next, 2);
    assert_eq!(index, 1);
    assert_eq!(f.submitted, 1);
    assert_eq!(f.completed, 1);
}

#[test]
fn drain_wait_observes_completed_equal_to_submitted() {
    let mut f = Fence::new();
    f.signal(7);
    f.wait_until(7);
    let next = drain_wait(&mut f, 8);
    assert_eq!(next, 9);
    assert_eq!(f.submitted, 8);
    assert_eq!(f.completed, f.submitted);
}
