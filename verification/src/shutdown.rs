//! The teardown order.
//!
//! Destroying GPU resources is a correctness-critical sequence: nothing
//! may be destroyed while the device still works, every resource must go
//! before the allocator that backs it, and the allocator before the
//! device.  The order is fixed here as data; the shell walks it.

use vstd::prelude::*;

verus! {

/// One phase of shutdown.
#[derive(Clone, Copy, PartialEq, Eq, Structural, Debug)]
pub enum ShutdownStep {
    /// Block until the device has finished all submitted work.
    WaitDeviceIdle,
    ClearGui,
    ClearPipelines,
    ClearImages,
    ClearFrames,
    DestroyAllocator,
    ClearSwapchain,
    ClearDevice,
    ClearSurface,
    ClearDebugCallback,
    ClearInstance,
}

/// The one valid teardown order: wait for idle first; free every
/// allocator-backed resource, then the allocator, then the swapchain and
/// the device, then what the device hung off.
pub open spec fn spec_shutdown_order() -> Seq<ShutdownStep> {
    seq![
        ShutdownStep::WaitDeviceIdle,
        ShutdownStep::ClearGui,
        ShutdownStep::ClearPipelines,
        ShutdownStep::ClearImages,
        ShutdownStep::ClearFrames,
        ShutdownStep::DestroyAllocator,
        ShutdownStep::ClearSwapchain,
        ShutdownStep::ClearDevice,
        ShutdownStep::ClearSurface,
        ShutdownStep::ClearDebugCallback,
        ShutdownStep::ClearInstance,
    ]
}

/// Produces the teardown sequence.
pub fn shutdown_plan() -> (steps: Vec<ShutdownStep>)
    ensures
        steps@ == spec_shutdown_order(),
{
    let mut steps: Vec<ShutdownStep> = Vec::new();
    steps.push(ShutdownStep::WaitDeviceIdle);
    steps.push(ShutdownStep::ClearGui);
    steps.push(ShutdownStep::ClearPipelines);
    steps.push(ShutdownStep::ClearImages);
    steps.push(ShutdownStep::ClearFrames);
    steps.push(ShutdownStep::DestroyAllocator);
    steps.push(ShutdownStep::ClearSwapchain);
    steps.push(ShutdownStep::ClearDevice);
    steps.push(ShutdownStep::ClearSurface);
    steps.push(ShutdownStep::ClearDebugCallback);
    steps.push(ShutdownStep::ClearInstance);
    assert(steps@ =~= spec_shutdown_order());
    steps
}

/// Destroy-after-idle: the idle wait is the first step and occurs nowhere
/// else; each phase occurs exactly once; and every allocator-backed
/// resource (overlay, pipelines, images, frame resources) is freed before
/// the allocator, which in turn is destroyed before the device.
pub proof fn lemma_shutdown_order_sound()
    ensures
        ({
            let s = spec_shutdown_order();
            &&& s.len() == 11
            &&& s[0] == ShutdownStep::WaitDeviceIdle
            &&& forall|i: int, j: int| 0 <= i < j < s.len() ==> #[trigger] s[i] != #[trigger] s[j]
            &&& s[1] == ShutdownStep::ClearGui
            &&& s[2] == ShutdownStep::ClearPipelines
            &&& s[3] == ShutdownStep::ClearImages
            &&& s[4] == ShutdownStep::ClearFrames
            &&& s[5] == ShutdownStep::DestroyAllocator
            &&& s[7] == ShutdownStep::ClearDevice
        }),
{
}

} // verus!
