//! The per-frame plan and the synchronization protocol.
//!
//! One frame is a fixed, ordered sequence of driver calls: wait on the
//! slot's fence, clear the fence and the slot's command buffer, acquire a
//! presentable image, record the frame (transitions, background compute,
//! blit, overlay, final transition), submit, present, advance.  The
//! sequence is produced here as data; the unverified shell executes it
//! step by step.

use vstd::prelude::*;

use crate::barriers::{transition_barrier, ImageLayout};
use crate::commands::{ImageTarget, RenderStep, ShaderKind};
use crate::frames::{frame_slot, FrameRing};
use crate::image_ops::{blit_plan, clear_range, extent_fits_signed, Extent2D};
use crate::pipelines::{pipeline_run_steps, ComputePipeline};
use crate::scene::Vec4Bits;

verus! {

/// How long a fence wait may block, in nanoseconds: one second, after
/// which the GPU is considered hung and the failure is fatal.
pub const FENCE_TIMEOUT_NS: u64 = 1_000_000_000;

/// The steps that open frame `n`: wait on its slot's fence, return the
/// fence to unsignaled, clear the slot's command buffer for re-recording,
/// then acquire an image.  The shell learns the image index from the
/// acquire step.
pub open spec fn spec_begin_frame(n: nat) -> Seq<RenderStep> {
    seq![
        RenderStep::WaitFence { slot: frame_slot(n) as usize, timeout_ns: FENCE_TIMEOUT_NS },
        RenderStep::ResetFence { slot: frame_slot(n) as usize },
        RenderStep::ResetCommandBuffer { slot: frame_slot(n) as usize },
        RenderStep::AcquireImage { slot: frame_slot(n) as usize, timeout_ns: FENCE_TIMEOUT_NS },
    ]
}

/// The background pass: clear the draw image, then run the compute
/// pipeline over it.
pub open spec fn background_steps(clear_color: Vec4Bits, run: Seq<RenderStep>) -> Seq<RenderStep> {
    seq![
        RenderStep::ClearColorImage {
            target: ImageTarget::DrawImage,
            color: clear_color,
            range: clear_range(),
        },
    ] + run
}

/// The overlay pass: a render bracket around the GUI's own draw calls.
pub open spec fn gui_steps(image_index: usize, render_area: Extent2D) -> Seq<RenderStep> {
    seq![
        RenderStep::BeginRendering { image_index: image_index, render_area: render_area },
        RenderStep::DrawGui,
        RenderStep::EndRendering,
    ]
}

/// Everything frame `n` records and submits once its image is acquired;
/// the command buffer was already cleared among the opening steps.
pub open spec fn spec_record_steps(
    n: nat,
    image_index: usize,
    draw_extent: Extent2D,
    swapchain_extent: Extent2D,
    clear_color: Vec4Bits,
    run: Seq<RenderStep>,
) -> Seq<RenderStep> {
    let s = frame_slot(n) as usize;
    let swap = ImageTarget::SwapchainImage { index: image_index };
    seq![
        RenderStep::BeginCommandBuffer { slot: s },
        RenderStep::TransitionImage {
            target: ImageTarget::DrawImage,
            barrier: transition_barrier(ImageLayout::Undefined, ImageLayout::General),
        },
    ] + background_steps(clear_color, run) + seq![
        RenderStep::TransitionImage {
            target: ImageTarget::DrawImage,
            barrier: transition_barrier(ImageLayout::General, ImageLayout::TransferSrcOptimal),
        },
        RenderStep::TransitionImage {
            target: swap,
            barrier: transition_barrier(ImageLayout::Undefined, ImageLayout::TransferDstOptimal),
        },
        RenderStep::BlitImage {
            src: ImageTarget::DrawImage,
            dst: swap,
            plan: blit_plan(draw_extent, swapchain_extent),
        },
        RenderStep::TransitionImage {
            target: swap,
            barrier: transition_barrier(
                ImageLayout::TransferDstOptimal,
                ImageLayout::ColorAttachmentOptimal,
            ),
        },
    ] + gui_steps(image_index, swapchain_extent) + seq![
        RenderStep::TransitionImage {
            target: swap,
            barrier: transition_barrier(
                ImageLayout::ColorAttachmentOptimal,
                ImageLayout::PresentSrc,
            ),
        },
        RenderStep::EndCommandBuffer { slot: s },
        RenderStep::Submit { slot: s },
        RenderStep::Present { slot: s, image_index: image_index },
    ]
}

/// The whole of frame `n`, opening steps included.
pub open spec fn spec_draw_plan(
    n: nat,
    image_index: usize,
    draw_extent: Extent2D,
    swapchain_extent: Extent2D,
    clear_color: Vec4Bits,
    run: Seq<RenderStep>,
) -> Seq<RenderStep> {
    spec_begin_frame(n) + spec_record_steps(
        n,
        image_index,
        draw_extent,
        swapchain_extent,
        clear_color,
        run,
    )
}

/// Produces the opening steps of the current frame.
pub fn begin_frame(ring: &FrameRing) -> (steps: Vec<RenderStep>)
    requires
        ring.wf(),
    ensures
        steps@ == spec_begin_frame(ring.frame_number as nat),
{
    let slot = ring.current_slot();
    let mut steps: Vec<RenderStep> = Vec::new();
    steps.push(RenderStep::WaitFence { slot, timeout_ns: FENCE_TIMEOUT_NS });
    steps.push(RenderStep::ResetFence { slot });
    steps.push(RenderStep::ResetCommandBuffer { slot });
    steps.push(RenderStep::AcquireImage { slot, timeout_ns: FENCE_TIMEOUT_NS });
    assert(steps@ =~= spec_begin_frame(ring.frame_number as nat));
    steps
}

/// Records one image-layout transition into the frame's command sequence.
pub fn transition_image(
    cmds: &mut Vec<RenderStep>,
    target: ImageTarget,
    current_layout: ImageLayout,
    new_layout: ImageLayout,
)
    ensures
        final(cmds)@ == old(cmds)@.push(RenderStep::TransitionImage {
            target: target,
            barrier: transition_barrier(current_layout, new_layout),
        }),
{
    let barrier = crate::barriers::barrier_for_transition(current_layout, new_layout);
    cmds.push(RenderStep::TransitionImage { target, barrier });
}

/// Records the background pass: clear the draw image to `clear_color`,
/// then run the pipeline's compute grid over it.
pub fn draw_background<P: ComputePipeline>(
    pipeline: &P,
    draw_extent: &Extent2D,
    clear_color: Vec4Bits,
    cmds: &mut Vec<RenderStep>,
)
    requires
        pipeline.descriptors_initialized(),
        pipeline.pipeline_created(),
    ensures
        final(cmds)@ == old(cmds)@ + background_steps(
            clear_color,
            pipeline_run_steps(
                P::shader(),
                pipeline.attributes().descriptors.draw_image_descriptors.id,
                *draw_extent,
            ),
        ),
{
    cmds.push(RenderStep::ClearColorImage {
        target: ImageTarget::DrawImage,
        color: clear_color,
        range: crate::image_ops::full_color_clear_range(),
    });
    pipeline.run(draw_extent, cmds);
    assert(cmds@ =~= old(cmds)@ + background_steps(
        clear_color,
        pipeline_run_steps(
            P::shader(),
            pipeline.attributes().descriptors.draw_image_descriptors.id,
            *draw_extent,
        ),
    ));
}

/// Records the overlay pass: a render bracket over the presentable image,
/// with the GUI's own draw calls between.
pub fn draw_gui(cmds: &mut Vec<RenderStep>, image_index: usize, render_area: &Extent2D)
    ensures
        final(cmds)@ == old(cmds)@ + gui_steps(image_index, *render_area),
{
    cmds.push(RenderStep::BeginRendering { image_index, render_area: *render_area });
    cmds.push(RenderStep::DrawGui);
    cmds.push(RenderStep::EndRendering);
    assert(cmds@ =~= old(cmds)@ + gui_steps(image_index, *render_area));
}

/// Records and closes the current frame once its image index is known,
/// then advances the frame counter.  The shell must already have performed
/// the opening steps of `begin_frame`.
pub fn draw<P: ComputePipeline>(
    ring: &mut FrameRing,
    pipeline: &P,
    image_index: usize,
    draw_extent: &Extent2D,
    swapchain_extent: &Extent2D,
    clear_color: Vec4Bits,
) -> (steps: Vec<RenderStep>)
    requires
        old(ring).wf(),
        old(ring).frame_number < u64::MAX,
        pipeline.descriptors_initialized(),
        pipeline.pipeline_created(),
        extent_fits_signed(*draw_extent),
        extent_fits_signed(*swapchain_extent),
    ensures
        steps@ == spec_record_steps(
            old(ring).frame_number as nat,
            image_index,
            *draw_extent,
            *swapchain_extent,
            clear_color,
            pipeline_run_steps(
                P::shader(),
                pipeline.attributes().descriptors.draw_image_descriptors.id,
                *draw_extent,
            ),
        ),
        final(ring).frame_number == old(ring).frame_number + 1,
        final(ring).frames == old(ring).frames,
{
    let slot = ring.current_slot();
    let mut cmds: Vec<RenderStep> = Vec::new();

    cmds.push(RenderStep::BeginCommandBuffer { slot });
    transition_image(&mut cmds, ImageTarget::DrawImage, ImageLayout::Undefined, ImageLayout::General);

    draw_background(pipeline, draw_extent, clear_color, &mut cmds);

    transition_image(
        &mut cmds,
        ImageTarget::DrawImage,
        ImageLayout::General,
        ImageLayout::TransferSrcOptimal,
    );
    transition_image(
        &mut cmds,
        ImageTarget::SwapchainImage { index: image_index },
        ImageLayout::Undefined,
        ImageLayout::TransferDstOptimal,
    );
    cmds.push(RenderStep::BlitImage {
        src: ImageTarget::DrawImage,
        dst: ImageTarget::SwapchainImage { index: image_index },
        plan: crate::image_ops::copy_image_to_image(draw_extent, swapchain_extent),
    });
    transition_image(
        &mut cmds,
        ImageTarget::SwapchainImage { index: image_index },
        ImageLayout::TransferDstOptimal,
        ImageLayout::ColorAttachmentOptimal,
    );

    draw_gui(&mut cmds, image_index, swapchain_extent);

    transition_image(
        &mut cmds,
        ImageTarget::SwapchainImage { index: image_index },
        ImageLayout::ColorAttachmentOptimal,
        ImageLayout::PresentSrc,
    );
    cmds.push(RenderStep::EndCommandBuffer { slot });
    cmds.push(RenderStep::Submit { slot });
    cmds.push(RenderStep::Present { slot, image_index });

    assert(cmds@ =~= spec_record_steps(
        old(ring).frame_number as nat,
        image_index,
        *draw_extent,
        *swapchain_extent,
        clear_color,
        pipeline_run_steps(
            P::shader(),
            pipeline.attributes().descriptors.draw_image_descriptors.id,
            *draw_extent,
        ),
    ));

    ring.advance();
    cmds
}

// ---------------------------------------------------------------------------
// The synchronization law
// ---------------------------------------------------------------------------

/// The step waits on slot `s`'s fence.
pub open spec fn is_wait_fence(step: RenderStep, s: usize) -> bool {
    step matches RenderStep::WaitFence { slot, .. } && slot == s
}

/// The step resets slot `s`'s command buffer.
pub open spec fn is_reset_command_buffer(step: RenderStep, s: usize) -> bool {
    step matches RenderStep::ResetCommandBuffer { slot } && slot == s
}

/// The step submits slot `s`'s command buffer (and so puts its fence in
/// flight again).
pub open spec fn is_submit(step: RenderStep, s: usize) -> bool {
    step matches RenderStep::Submit { slot } && slot == s
}

/// `plan` is the full plan of frame `n`, for some acquired image, extents,
/// clear color and compute pipeline.
pub open spec fn is_frame_plan(plan: Seq<RenderStep>, n: nat) -> bool {
    exists|
        image_index: usize,
        draw_extent: Extent2D,
        swapchain_extent: Extent2D,
        clear_color: Vec4Bits,
        shader: ShaderKind,
        set_id: u32,
    |
        plan == #[trigger] spec_draw_plan(
            n,
            image_index,
            draw_extent,
            swapchain_extent,
            clear_color,
            pipeline_run_steps(shader, set_id, draw_extent),
        )
}

/// What `begin_frame` and `draw` together produce for one frame is a frame
/// plan in the sense of the synchronization law.
pub proof fn lemma_draw_plan_is_frame_plan(
    n: nat,
    image_index: usize,
    draw_extent: Extent2D,
    swapchain_extent: Extent2D,
    clear_color: Vec4Bits,
    shader: ShaderKind,
    set_id: u32,
)
    ensures
        is_frame_plan(
            spec_draw_plan(
                n,
                image_index,
                draw_extent,
                swapchain_extent,
                clear_color,
                pipeline_run_steps(shader, set_id, draw_extent),
            ),
            n,
        ),
{
}

/// Within one frame's plan: the wait on the slot's fence is the very first
/// step, the only command-buffer reset is step 2 (before the acquire) and
/// targets that slot, and the only submit is step 19 and targets that
/// slot.
pub proof fn lemma_frame_plan_structure(plan: Seq<RenderStep>, n: nat)
    requires
        is_frame_plan(plan, n),
    ensures
        plan.len() == 21,
        is_wait_fence(plan[0], frame_slot(n) as usize),
        is_reset_command_buffer(plan[2], frame_slot(n) as usize),
        forall|j: int, s: usize| 0 <= j < 21 && #[trigger] is_reset_command_buffer(plan[j], s)
            ==> j == 2 && s == frame_slot(n) as usize,
        forall|j: int, s: usize| 0 <= j < 21 && #[trigger] is_submit(plan[j], s)
            ==> j == 19 && s == frame_slot(n) as usize,
        forall|j: int, s: usize| 0 <= j < 21 && #[trigger] is_wait_fence(plan[j], s)
            ==> j == 0 && s == frame_slot(n) as usize,
{
    let (image_index, draw_extent, swapchain_extent, clear_color, shader, set_id) = choose|
        image_index: usize,
        draw_extent: Extent2D,
        swapchain_extent: Extent2D,
        clear_color: Vec4Bits,
        shader: ShaderKind,
        set_id: u32,
    |
        plan == #[trigger] spec_draw_plan(
            n,
            image_index,
            draw_extent,
            swapchain_extent,
            clear_color,
            pipeline_run_steps(shader, set_id, draw_extent),
        );
    let run = pipeline_run_steps(shader, set_id, draw_extent);
    let s = frame_slot(n) as usize;
    let swap = ImageTarget::SwapchainImage { index: image_index };
    assert(plan =~= seq![
        RenderStep::WaitFence { slot: s, timeout_ns: FENCE_TIMEOUT_NS },
        RenderStep::ResetFence { slot: s },
        RenderStep::ResetCommandBuffer { slot: s },
        RenderStep::AcquireImage { slot: s, timeout_ns: FENCE_TIMEOUT_NS },
        RenderStep::BeginCommandBuffer { slot: s },
        RenderStep::TransitionImage {
            target: ImageTarget::DrawImage,
            barrier: transition_barrier(ImageLayout::Undefined, ImageLayout::General),
        },
        RenderStep::ClearColorImage {
            target: ImageTarget::DrawImage,
            color: clear_color,
            range: clear_range(),
        },
        RenderStep::BindComputePipeline { shader: shader },
        RenderStep::BindDescriptorSets { first_set: 0, set_id: set_id },
        RenderStep::Dispatch {
            x: draw_extent.width / crate::pipelines::WORKGROUP_DIM,
            y: draw_extent.height / crate::pipelines::WORKGROUP_DIM,
            z: 1,
        },
        RenderStep::TransitionImage {
            target: ImageTarget::DrawImage,
            barrier: transition_barrier(ImageLayout::General, ImageLayout::TransferSrcOptimal),
        },
        RenderStep::TransitionImage {
            target: swap,
            barrier: transition_barrier(ImageLayout::Undefined, ImageLayout::TransferDstOptimal),
        },
        RenderStep::BlitImage {
            src: ImageTarget::DrawImage,
            dst: swap,
            plan: blit_plan(draw_extent, swapchain_extent),
        },
        RenderStep::TransitionImage {
            target: swap,
            barrier: transition_barrier(
                ImageLayout::TransferDstOptimal,
                ImageLayout::ColorAttachmentOptimal,
            ),
        },
        RenderStep::BeginRendering { image_index: image_index, render_area: swapchain_extent },
        RenderStep::DrawGui,
        RenderStep::EndRendering,
        RenderStep::TransitionImage {
            target: swap,
            barrier: transition_barrier(
                ImageLayout::ColorAttachmentOptimal,
                ImageLayout::PresentSrc,
            ),
        },
        RenderStep::EndCommandBuffer { slot: s },
        RenderStep::Submit { slot: s },
        RenderStep::Present { slot: s, image_index: image_index },
    ]);
}

/// The driver-visible trace of a run: the plans of consecutive frames, one
/// after the other.
pub open spec fn frames_trace(plans: Seq<Seq<RenderStep>>) -> Seq<RenderStep>
    decreases plans.len(),
{
    if plans.len() == 0 {
        Seq::empty()
    } else {
        plans[0] + frames_trace(plans.drop_first())
    }
}

/// No write-after-use race: every reset of a slot's command buffer is
/// preceded by a wait on that slot's fence, with no submit of that slot
/// between the two — so the fence observed covers every submission of the
/// slot that came before the reset.
pub open spec fn fence_guards_resets(trace: Seq<RenderStep>) -> bool {
    forall|p: int, s: usize|
        0 <= p < trace.len() && #[trigger] is_reset_command_buffer(trace[p], s) ==> exists|q: int|
            0 <= q < p && #[trigger] is_wait_fence(trace[q], s) && (forall|r: int|
                q < r < p ==> !is_submit(#[trigger] trace[r], s))
}

/// The synchronization law of the frame ring: for any number of submitted
/// frames, the trace of their plans never resets a slot's command buffer
/// without first waiting on that slot's fence, and no submission of the
/// slot stands between that wait and the reset.
pub proof fn lemma_fence_signaled_before_reset(plans: Seq<Seq<RenderStep>>, first: nat)
    requires
        forall|i: int| 0 <= i < plans.len() ==> is_frame_plan(
            #[trigger] plans[i],
            (first + i) as nat,
        ),
    ensures
        fence_guards_resets(frames_trace(plans)),
    decreases plans.len(),
{
    let trace = frames_trace(plans);
    if plans.len() == 0 {
        assert(trace.len() == 0);
    } else {
        let head = plans[0];
        assert(is_frame_plan(head, first));
        lemma_frame_plan_structure(head, first);
        let tail = plans.drop_first();
        assert forall|i: int| 0 <= i < tail.len() implies is_frame_plan(
            #[trigger] tail[i],
            ((first + 1) + i) as nat,
        ) by {
            assert(tail[i] == plans[i + 1]);
            assert(is_frame_plan(plans[i + 1], (first + (i + 1)) as nat));
        };
        lemma_fence_signaled_before_reset(tail, first + 1);
        let ttrace = frames_trace(tail);
        assert(trace == head + ttrace);

        assert forall|p: int, s: usize|
            0 <= p < trace.len() && #[trigger] is_reset_command_buffer(trace[p], s) implies exists|
                q: int,
            |
                0 <= q < p && #[trigger] is_wait_fence(trace[q], s) && (forall|r: int|
                    q < r < p ==> !is_submit(#[trigger] trace[r], s)) by {
            if p < head.len() {
                assert(trace[p] == head[p]);
                assert(is_reset_command_buffer(head[p], s));
                assert(p == 2 && s == frame_slot(first) as usize);
                assert(trace[0] == head[0]);
                assert(is_wait_fence(trace[0], s));
                assert forall|r: int| 0 < r < p implies !is_submit(
                    #[trigger] trace[r],
                    s,
                ) by {
                    assert(trace[r] == head[r]);
                    if is_submit(head[r], s) {
                        assert(r == 19);
                    }
                };
                assert(0 <= 0 < p && is_wait_fence(trace[0], s) && (forall|r: int|
                    0 < r < p ==> !is_submit(#[trigger] trace[r], s)));
            } else {
                let p2 = p - head.len();
                assert(trace[p] == ttrace[p2]);
                assert(is_reset_command_buffer(ttrace[p2], s));
                let q2 = choose|q2: int|
                    0 <= q2 < p2 && #[trigger] is_wait_fence(ttrace[q2], s) && (forall|r: int|
                        q2 < r < p2 ==> !is_submit(#[trigger] ttrace[r], s));
                let q = q2 + head.len();
                assert(trace[q] == ttrace[q2]);
                assert(is_wait_fence(trace[q], s));
                assert forall|r: int| q < r < p implies !is_submit(
                    #[trigger] trace[r],
                    s,
                ) by {
                    let r2 = r - head.len();
                    assert(trace[r] == ttrace[r2]);
                    assert(q2 < r2 < p2);
                    assert(!is_submit(ttrace[r2], s));
                };
                assert(0 <= q < p && is_wait_fence(trace[q], s) && (forall|r: int|
                    q < r < p ==> !is_submit(#[trigger] trace[r], s)));
            }
        };
    }
}

} // verus!
