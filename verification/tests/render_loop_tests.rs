use frame_pipeline::error::GfxError;
use frame_pipeline::recorder::{clear_color, Command, RecordEvents};
use frame_pipeline::render_loop::{RenderLoop, TickEvents, TickOutcome};
use frame_pipeline::swapchain::SwapChainManager;

fn new_loop() -> RenderLoop {
    let obtained = vec![true, true];
    let manager = SwapChainManager::create(800, 600, true, 0, 1000, 32, &obtained).unwrap();
    RenderLoop::new(manager)
}

fn good_tick() -> TickEvents {
    TickEvents {
        record: RecordEvents {
            allocator_reset_ok: true,
            list_reset_ok: true,
            close_ok: true,
        },
        present_ok: true,
    }
}

#[test]
fn fresh_loop_starts_at_fence_value_one() {
    let rl = new_loop();
    assert_eq!(rl.frame.fence_value, 1);
    assert_eq!(rl.frame.frame_index, 0);
    assert_eq!(rl.fence.submitted, 0);
    assert_eq!(rl.fence.completed, 0);
}

#[test]
fn hundred_successful_frames_advance_the_fence_by_one_each() {
    let mut rl = new_loop();
    for frame in 1..=100u64 {
        let out = rl.tick(good_tick());
        let submitted = match out {
            TickOutcome::Completed { submitted } => submitted,
            _ => panic!("a successful tick must complete"),
        };
        // Every presented frame was cleared to the fixed color constant.
        assert!(submitted.closed);
        assert_eq!(
            submitted.commands[2],
            Command::Clear {
                color: clear_color(),
            }
        );
        assert_eq!(rl.fence.submitted, frame);
        assert_eq!(rl.fence.completed, frame);
    }
    assert_eq!(rl.fence.submitted, 100);
    assert_eq!(rl.frame.fence_value, 101);
    // For a ring of two, the index alternates and is back at the start.
    assert_eq!(rl.frame.frame_index, 0);
}

#[test]
fn frame_index_alternates_under_normal_operation() {
    let mut rl = new_loop();
    let mut seen = vec![rl.frame.frame_index];
    for _ in 0..6 {
        rl.tick(good_tick());
        seen.push(rl.frame.frame_index);
    }
    assert_eq!(seen, vec![0, 1, 0, 1, 0, 1, 0]);
    for index in seen {
        assert!(index < 2);
    }
}

#[test]
fn reset_failure_mid_run_skips_the_frame_and_recovers() {
    let mut rl = new_loop();
    for _ in 0..49 {
        let out = rl.tick(good_tick());
        assert!(matches!(out, TickOutcome::Completed { .. }));
    }
    let index_before = rl.frame.frame_index;
    let fence_value_before = rl.frame.fence_value;
    let submitted_before = rl.fence.submitted;

    // The command-list reset fails on the next frame.
    let failing = TickEvents {
        record: RecordEvents {
            allocator_reset_ok: true,
            list_reset_ok: false,
            close_ok: true,
        },
        present_ok: true,
    };
    let out = rl.tick(failing);
    // The error is logged, nothing is submitted or presented, and the
    // loop does not terminate.
    assert!(matches!(out, TickOutcome::SkippedRecording));
    assert_eq!(out.logged_error(), Some(GfxError::CommandListFailure));
    // The skipped frame advances neither the fence nor the frame index.
    assert_eq!(rl.frame.frame_index, index_before);
    assert_eq!(rl.frame.fence_value, fence_value_before);
    assert_eq!(rl.fence.submitted, submitted_before);

    // Normal operation resumes on the following frame.
    let out = rl.tick(good_tick());
    assert!(matches!(out, TickOutcome::Completed { .. }));
    assert_eq!(out.logged_error(), None);
    assert_eq!(rl.fence.submitted, submitted_before + 1);
}

#[test]
fn present_failure_skips_synchronization_only() {
    let mut rl = new_loop();
    let failing = TickEvents {
        record: RecordEvents {
            allocator_reset_ok: true,
            list_reset_ok: true,
            close_ok: true,
        },
        present_ok: false,
    };
    let out = rl.tick(failing);
    match &out {
        TickOutcome::SkippedPresent { submitted } => {
            // The list had been recorded and closed before present failed.
            assert!(submitted.closed);
            assert_eq!(submitted.commands.len(), 4);
        }
        _ => panic!("a present failure must be reported as such"),
    }
    assert_eq!(out.logged_error(), Some(GfxError::PresentFailure));
    assert_eq!(rl.frame.frame_index, 0);
    assert_eq!(rl.frame.fence_value, 1);
    assert_eq!(rl.fence.submitted, 0);
}

#[test]
fn shutdown_drains_before_any_release() {
    let mut rl = new_loop();
    for _ in 0..5 {
        rl.tick(good_tick());
    }
    assert!(rl.report_live_objects());
    rl.shutdown();
    // The final drain wait observed completed == last submitted before the
    // objects were released.
    assert_eq!(rl.fence.completed, rl.fence.submitted);
    assert_eq!(rl.fence.submitted, 6);
    // The leak report finds nothing outstanding.
    assert!(!rl.report_live_objects());
}
