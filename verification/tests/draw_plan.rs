use rulkan::commands::{ImageTarget, RenderStep};
use rulkan::frames::{FrameData, FrameRing};
use rulkan::image_ops::Extent2D;
use rulkan::pipeline_gradient::PipelineGradient;
use rulkan::pipelines::ComputePipeline;
use rulkan::scene::{Scene, Vec4Bits};

fn ready_ring() -> FrameRing {
    let slot = FrameData {
        command_pool: 1,
        command_buffer: 2,
        swapchain_semaphore: 3,
        render_semaphore: 4,
        render_fence: 5,
    };
    FrameRing { frames: [slot, slot], frame_number: 0 }
}

fn ready_pipeline() -> PipelineGradient {
    let scene = Scene::new();
    let mut pipeline = PipelineGradient::default();
    let _ = pipeline.init(&scene);
    pipeline
}

fn black() -> Vec4Bits {
    Vec4Bits { x: 0, y: 0, z: 0, w: 0x3f80_0000 }
}

#[test]
fn record_steps_begin_recording_first_submit_near_end() {
    let mut ring = ready_ring();
    let pipeline = ready_pipeline();
    let draw_extent = Extent2D { width: 1280, height: 720 };
    let swap_extent = Extent2D { width: 1280, height: 720 };
    let steps = rulkan::draw::draw(&mut ring, &pipeline, 0, &draw_extent, &swap_extent, black());

    assert_eq!(steps.len(), 17);
    assert_eq!(steps[0], RenderStep::BeginCommandBuffer { slot: 0 });
    assert_eq!(steps[15], RenderStep::Submit { slot: 0 });
    assert_eq!(steps[16], RenderStep::Present { slot: 0, image_index: 0 });
    assert_eq!(ring.frame_number, 1);
}

#[test]
fn command_buffer_reset_precedes_image_acquisition() {
    let ring = ready_ring();
    let steps = rulkan::draw::begin_frame(&ring);
    let reset = steps
        .iter()
        .position(|s| matches!(s, RenderStep::ResetCommandBuffer { .. }))
        .unwrap();
    let acquire = steps
        .iter()
        .position(|s| matches!(s, RenderStep::AcquireImage { .. }))
        .unwrap();
    assert!(reset < acquire);
}

#[test]
fn fence_wait_precedes_reset_across_frames() {
    let mut ring = ready_ring();
    let pipeline = ready_pipeline();
    let draw_extent = Extent2D { width: 1280, height: 720 };
    let swap_extent = Extent2D { width: 1280, height: 720 };

    let mut trace: Vec<RenderStep> = Vec::new();
    for _ in 0..4 {
        trace.extend(rulkan::draw::begin_frame(&ring));
        trace.extend(rulkan::draw::draw(
            &mut ring,
            &pipeline,
            0,
            &draw_extent,
            &swap_extent,
            black(),
        ));
    }

    for (p, step) in trace.iter().enumerate() {
        if let RenderStep::ResetCommandBuffer { slot } = step {
            let guard = trace[..p]
                .iter()
                .rposition(|s| matches!(s, RenderStep::WaitFence { slot: w, .. } if w == slot));
            let q = guard.expect("a fence wait must precede every command-buffer reset");
            let submit_between = trace[q + 1..p]
                .iter()
                .any(|s| matches!(s, RenderStep::Submit { slot: w } if w == slot));
            assert!(!submit_between);
        }
    }
}

#[test]
fn two_draw_calls_use_slot_zero_then_one_then_wrap() {
    let mut ring = ready_ring();
    let pipeline = ready_pipeline();
    let draw_extent = Extent2D { width: 1280, height: 720 };
    let swap_extent = Extent2D { width: 1280, height: 720 };

    let mut slots = Vec::new();
    for _ in 0..3 {
        let steps =
            rulkan::draw::draw(&mut ring, &pipeline, 0, &draw_extent, &swap_extent, black());
        if let RenderStep::Submit { slot } = steps[15] {
            slots.push(slot);
        }
    }
    assert_eq!(slots, vec![0, 1, 0]);
}

#[test]
fn gui_bracket_surrounds_overlay_draw() {
    let swap_extent = Extent2D { width: 640, height: 480 };
    let mut cmds: Vec<RenderStep> = Vec::new();
    rulkan::draw::draw_gui(&mut cmds, 2, &swap_extent);
    assert_eq!(cmds.len(), 3);
    assert_eq!(cmds[0], RenderStep::BeginRendering { image_index: 2, render_area: swap_extent });
    assert_eq!(cmds[1], RenderStep::DrawGui);
    assert_eq!(cmds[2], RenderStep::EndRendering);
}

#[test]
fn blit_stretches_whole_draw_image_onto_swapchain_image() {
    let mut ring = ready_ring();
    let pipeline = ready_pipeline();
    let draw_extent = Extent2D { width: 1600, height: 920 };
    let swap_extent = Extent2D { width: 1280, height: 720 };
    let steps = rulkan::draw::draw(&mut ring, &pipeline, 1, &draw_extent, &swap_extent, black());

    let blit = steps
        .iter()
        .find_map(|s| match s {
            RenderStep::BlitImage { src, dst, plan } => Some((*src, *dst, *plan)),
            _ => None,
        })
        .expect("the frame must blit the draw image");
    assert_eq!(blit.0, ImageTarget::DrawImage);
    assert_eq!(blit.1, ImageTarget::SwapchainImage { index: 1 });
    assert_eq!(blit.2.region.src_offset_max.x, 1600);
    assert_eq!(blit.2.region.src_offset_max.y, 920);
    assert_eq!(blit.2.region.dst_offset_max.x, 1280);
    assert_eq!(blit.2.region.dst_offset_max.y, 720);
    assert_eq!(blit.2.region.src_offset_max.z, 1);
}
