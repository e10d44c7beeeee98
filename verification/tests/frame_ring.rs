use rulkan::commands::RenderStep;
use rulkan::draw::{begin_frame, FENCE_TIMEOUT_NS};
use rulkan::frames::{init_commands, init_sync_structuress, FrameData, FrameRing, FRAME_OVERLAP};

fn ready_ring() -> FrameRing {
    let slot = FrameData {
        command_pool: 1,
        command_buffer: 2,
        swapchain_semaphore: 3,
        render_semaphore: 4,
        render_fence: 5,
    };
    FrameRing { frames: [slot, slot], frame_number: 0 }
}

#[test]
fn frame_overlap_is_two() {
    assert_eq!(FRAME_OVERLAP, 2);
}

#[test]
fn consecutive_draws_wrap_round_robin() {
    let mut ring = ready_ring();
    assert_eq!(ring.current_slot(), 0);
    ring.advance();
    assert_eq!(ring.current_slot(), 1);
    ring.advance();
    assert_eq!(ring.current_slot(), 0);
}

#[test]
fn frame_slot_check_accepts_complete_slot() {
    let ring = ready_ring();
    let frame = ring.get_current_frame();
    assert!(frame.sync_present());
    frame.check();
}

#[test]
fn incomplete_slot_reports_missing_sync() {
    let slot = FrameData {
        command_pool: 1,
        command_buffer: 2,
        swapchain_semaphore: 0,
        render_semaphore: 4,
        render_fence: 5,
    };
    assert!(!slot.sync_present());
}

#[test]
fn begin_frame_waits_then_resets_then_acquires() {
    let ring = ready_ring();
    let steps = begin_frame(&ring);
    assert_eq!(steps.len(), 4);
    assert_eq!(steps[0], RenderStep::WaitFence { slot: 0, timeout_ns: FENCE_TIMEOUT_NS });
    assert_eq!(steps[1], RenderStep::ResetFence { slot: 0 });
    assert_eq!(steps[2], RenderStep::ResetCommandBuffer { slot: 0 });
    assert_eq!(steps[3], RenderStep::AcquireImage { slot: 0, timeout_ns: FENCE_TIMEOUT_NS });
}

#[test]
fn frame_command_resources_are_resettable_and_primary() {
    let plan = init_commands(7);
    assert!(plan.command_pool.reset_command_buffer);
    assert_eq!(plan.command_pool.queue_family_index, 7);
    assert_eq!(plan.command_buffers.count, 1);
    assert!(plan.command_buffers.primary);
}

#[test]
fn render_fence_is_created_signaled() {
    // The first wait of every slot must return at once: nothing was ever
    // submitted on it, so the fence starts out signaled.
    let plan = init_sync_structuress();
    assert!(plan.render_fence.signaled);
    assert_eq!(plan.semaphore_count, 2);
}

#[test]
fn begin_frame_targets_the_other_slot_after_advance() {
    let mut ring = ready_ring();
    ring.advance();
    let steps = begin_frame(&ring);
    assert_eq!(steps[0], RenderStep::WaitFence { slot: 1, timeout_ns: FENCE_TIMEOUT_NS });
}
