//! Image-layout transitions.
//!
//! An image's access layout is changed by an explicit memory barrier.  The
//! policy here is deliberately conservative: every transition waits on all
//! previous GPU work and blocks all subsequent GPU work, trading pipeline
//! overlap for simplicity.  The caller supplies the old layout; it is not
//! tracked or validated here.

use vstd::prelude::*;

verus! {

/// The sentinel meaning "all remaining mip levels / array layers".
pub const REMAINING: u32 = 0xffff_ffff;

/// The GPU's access-mode tag for an image.
#[derive(Clone, Copy, PartialEq, Eq, Structural, Debug)]
pub enum ImageLayout {
    Undefined,
    General,
    TransferSrcOptimal,
    TransferDstOptimal,
    ColorAttachmentOptimal,
    DepthAttachmentOptimal,
    PresentSrc,
}

/// Which aspect of an image a barrier covers.
#[derive(Clone, Copy, PartialEq, Eq, Structural, Debug)]
pub enum ImageAspect {
    Color,
    Depth,
}

/// Pipeline stages a barrier synchronizes against.
#[derive(Clone, Copy, PartialEq, Eq, Structural, Debug)]
pub enum StageMask {
    AllCommands,
}

/// Memory accesses a barrier makes visible or waits for.
#[derive(Clone, Copy, PartialEq, Eq, Structural, Debug)]
pub struct AccessMask {
    pub memory_write: bool,
    pub memory_read: bool,
}

/// The image subresources a barrier covers.
#[derive(Clone, Copy, PartialEq, Eq, Structural, Debug)]
pub struct SubresourceRange {
    pub aspect_mask: ImageAspect,
    pub base_mip_level: u32,
    pub level_count: u32,
    pub base_array_layer: u32,
    pub layer_count: u32,
}

/// One image memory barrier, fully parameterized.
#[derive(Clone, Copy, PartialEq, Eq, Structural, Debug)]
pub struct ImageBarrier {
    pub src_stage_mask: StageMask,
    pub src_access_mask: AccessMask,
    pub dst_stage_mask: StageMask,
    pub dst_access_mask: AccessMask,
    pub old_layout: ImageLayout,
    pub new_layout: ImageLayout,
    pub subresource_range: SubresourceRange,
}

/// The aspect a transition touches is chosen from the layout being entered:
/// depth for the depth-attachment layout, color for everything else.
pub open spec fn aspect_for(new_layout: ImageLayout) -> ImageAspect {
    if new_layout == ImageLayout::DepthAttachmentOptimal {
        ImageAspect::Depth
    } else {
        ImageAspect::Color
    }
}

/// The barrier that moves an image from `old_layout` to `new_layout`:
/// all-commands to all-commands, write-visible before, write-and-read
/// visible after, over every mip level and array layer.
pub open spec fn transition_barrier(old_layout: ImageLayout, new_layout: ImageLayout) -> ImageBarrier {
    ImageBarrier {
        src_stage_mask: StageMask::AllCommands,
        src_access_mask: AccessMask { memory_write: true, memory_read: false },
        dst_stage_mask: StageMask::AllCommands,
        dst_access_mask: AccessMask { memory_write: true, memory_read: true },
        old_layout: old_layout,
        new_layout: new_layout,
        subresource_range: SubresourceRange {
            aspect_mask: aspect_for(new_layout),
            base_mip_level: 0,
            level_count: REMAINING,
            base_array_layer: 0,
            layer_count: REMAINING,
        },
    }
}

/// Builds the barrier for one layout transition.  The result is a function
/// of the two layouts alone.
pub fn barrier_for_transition(current_layout: ImageLayout, new_layout: ImageLayout) -> (r: ImageBarrier)
    ensures
        r == transition_barrier(current_layout, new_layout),
{
    let aspect_mask = if matches!(new_layout, ImageLayout::DepthAttachmentOptimal) {
        ImageAspect::Depth
    } else {
        ImageAspect::Color
    };

    ImageBarrier {
        src_stage_mask: StageMask::AllCommands,
        src_access_mask: AccessMask { memory_write: true, memory_read: false },
        dst_stage_mask: StageMask::AllCommands,
        dst_access_mask: AccessMask { memory_write: true, memory_read: true },
        old_layout: current_layout,
        new_layout: new_layout,
        subresource_range: SubresourceRange {
            aspect_mask,
            base_mip_level: 0,
            level_count: REMAINING,
            base_array_layer: 0,
            layer_count: REMAINING,
        },
    }
}

/// Records one transition at the end of a barrier log (modelling a command
/// buffer that only receives barriers).
pub fn record_transition(
    log: &mut Vec<ImageBarrier>,
    current_layout: ImageLayout,
    new_layout: ImageLayout,
)
    ensures
        final(log)@ == old(log)@.push(transition_barrier(current_layout, new_layout)),
{
    let barrier = barrier_for_transition(current_layout, new_layout);
    log.push(barrier);
}

/// Repeating a transition with identical old/new layout arguments appends two
/// barriers with identical parameters: the operation keeps no hidden state.
pub proof fn lemma_transition_idempotent(
    log: Seq<ImageBarrier>,
    current_layout: ImageLayout,
    new_layout: ImageLayout,
)
    ensures
        ({
            let once = log.push(transition_barrier(current_layout, new_layout));
            let twice = once.push(transition_barrier(current_layout, new_layout));
            twice[twice.len() - 1] == twice[twice.len() - 2]
        }),
{
}

} // verus!
