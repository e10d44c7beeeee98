//! The vocabulary of one frame: every call the renderer core asks the
//! driver to make, in order, as plain data.  The unverified shell walks such
//! a sequence and performs each step against the device.

use vstd::prelude::*;

use crate::barriers::{ImageBarrier, SubresourceRange};
use crate::image_ops::{BlitPlan, Extent2D};
use crate::scene::Vec4Bits;

verus! {

/// Which image a step touches.
#[derive(Clone, Copy, PartialEq, Eq, Structural, Debug)]
pub enum ImageTarget {
    /// The persistent offscreen draw target.
    DrawImage,
    /// One of the swapchain's presentable images.
    SwapchainImage { index: usize },
}

/// Which compute shader a pipeline binds.
#[derive(Clone, Copy, PartialEq, Eq, Structural, Debug)]
pub enum ShaderKind {
    Gradient,
    Raytracing,
}

/// One step of a frame, in the order the driver must see it.
#[derive(Clone, Copy, PartialEq, Eq, Structural, Debug)]
pub enum RenderStep {
    /// Block until the slot's fence signals, with a bounded timeout.
    WaitFence { slot: usize, timeout_ns: u64 },
    /// Return the slot's fence to the unsignaled state.
    ResetFence { slot: usize },
    /// Request the next presentable image; the slot's acquire semaphore is
    /// signaled when it is ready.
    AcquireImage { slot: usize, timeout_ns: u64 },
    /// Clear the slot's command buffer for re-recording.
    ResetCommandBuffer { slot: usize },
    /// Open the slot's command buffer for one-time recording.
    BeginCommandBuffer { slot: usize },
    /// Change an image's access layout.
    TransitionImage { target: ImageTarget, barrier: ImageBarrier },
    /// Fill an image with one color.
    ClearColorImage { target: ImageTarget, color: Vec4Bits, range: SubresourceRange },
    /// Bind a compute pipeline.
    BindComputePipeline { shader: ShaderKind },
    /// Bind one descriptor set for compute.
    BindDescriptorSets { first_set: u32, set_id: u32 },
    /// Launch a grid of compute workgroups.
    Dispatch { x: u32, y: u32, z: u32 },
    /// Stretch-copy one image onto another.
    BlitImage { src: ImageTarget, dst: ImageTarget, plan: BlitPlan },
    /// Open a render pass over one presentable image, loading and keeping
    /// its contents.
    BeginRendering { image_index: usize, render_area: Extent2D },
    /// Let the overlay record its own draw calls.
    DrawGui,
    /// Close the render pass.
    EndRendering,
    /// Close the slot's command buffer.
    EndCommandBuffer { slot: usize },
    /// Submit the slot's command buffer: wait on the slot's acquire
    /// semaphore, signal its render semaphore and its fence.
    Submit { slot: usize },
    /// Present the acquired image, waiting on the slot's render semaphore.
    Present { slot: usize, image_index: usize },
}

} // verus!
