//! Immediate, synchronous command submission, for one-shot work outside
//! the frame loop (buffer uploads during setup).
//!
//! The protocol is fixed: reset the dedicated fence, reset the dedicated
//! command buffer, begin recording, record the caller's commands, end
//! recording, submit signaling the fence, then block until the fence
//! signals.  It deliberately stalls the CPU and must stay out of the hot
//! per-frame path.

use vstd::prelude::*;

use crate::buffers::BufferCopyRegion;
use crate::frames::{CommandBufferPlan, CommandPoolPlan, FenceCreatePlan};

verus! {

/// What the dedicated immediate-submit structures are created with.
#[derive(Clone, Copy, PartialEq, Eq, Structural, Debug)]
pub struct ImmediateStructuresPlan {
    pub command_pool: CommandPoolPlan,
    pub command_buffers: CommandBufferPlan,
    pub fence: FenceCreatePlan,
}

/// The dedicated immediate-submit resources, separate from the frame
/// ring: a resettable pool on the graphics family with one primary
/// command buffer, and a fence created already signaled (the protocol
/// resets it before every use).
pub fn init_immediate_submit_structures(queue_family_index: u32) -> (r: ImmediateStructuresPlan)
    ensures
        r.command_pool == (CommandPoolPlan {
            reset_command_buffer: true,
            queue_family_index: queue_family_index,
        }),
        r.command_buffers == (CommandBufferPlan { count: 1, primary: true }),
        r.fence.signaled,
{
    ImmediateStructuresPlan {
        command_pool: CommandPoolPlan { reset_command_buffer: true, queue_family_index },
        command_buffers: CommandBufferPlan { count: 1, primary: true },
        fence: FenceCreatePlan { signaled: true },
    }
}

/// One step of an immediate submission.
#[derive(Clone, Copy, PartialEq, Eq, Structural, Debug)]
pub enum ImmediateStep {
    /// Return the dedicated fence to the unsignaled state.
    ResetFence,
    /// Clear the dedicated command buffer.
    ResetCommandBuffer,
    /// Open the command buffer for one-time recording.
    BeginCommandBuffer,
    /// One caller-recorded buffer-to-buffer copy.
    CopyBuffer { region: BufferCopyRegion },
    /// Close the command buffer.
    EndCommandBuffer,
    /// Submit the command buffer, signaling the dedicated fence.
    Submit,
    /// Block until the fence signals: the work is complete on return.
    WaitFence,
}

/// The submission wrapped around the caller's copy commands.
pub open spec fn spec_immediate_submit(copies: Seq<BufferCopyRegion>) -> Seq<ImmediateStep> {
    seq![
        ImmediateStep::ResetFence,
        ImmediateStep::ResetCommandBuffer,
        ImmediateStep::BeginCommandBuffer,
    ] + copies.map_values(|c: BufferCopyRegion| ImmediateStep::CopyBuffer { region: c }) + seq![
        ImmediateStep::EndCommandBuffer,
        ImmediateStep::Submit,
        ImmediateStep::WaitFence,
    ]
}

/// Plans one immediate submission around the given copy commands: record
/// bracketing before and after, submit, and a blocking wait as the last
/// step — nothing observable happens after the wait, so the work is done
/// when the sequence ends.
pub fn immediate_submit(copies: &Vec<BufferCopyRegion>) -> (steps: Vec<ImmediateStep>)
    ensures
        steps@ == spec_immediate_submit(copies@),
        steps@.len() == copies@.len() + 6,
        steps@[steps@.len() - 1] == ImmediateStep::WaitFence,
        steps@[steps@.len() - 2] == ImmediateStep::Submit,
{
    let mut steps: Vec<ImmediateStep> = Vec::new();
    steps.push(ImmediateStep::ResetFence);
    steps.push(ImmediateStep::ResetCommandBuffer);
    steps.push(ImmediateStep::BeginCommandBuffer);
    let n = copies.len();
    let mut i: usize = 0;
    while i < n
        invariant
            n == copies@.len(),
            i <= n,
            steps@.len() == i + 3,
            steps@ == seq![
                ImmediateStep::ResetFence,
                ImmediateStep::ResetCommandBuffer,
                ImmediateStep::BeginCommandBuffer,
            ] + copies@.subrange(0, i as int).map_values(
                |c: BufferCopyRegion| ImmediateStep::CopyBuffer { region: c },
            ),
        decreases n - i,
    {
        steps.push(ImmediateStep::CopyBuffer { region: copies[i] });
        proof {
            assert(copies@.subrange(0, i + 1 as int) =~= copies@.subrange(0, i as int).push(
                copies@[i as int],
            ));
            assert(copies@.subrange(0, i + 1 as int).map_values(
                |c: BufferCopyRegion| ImmediateStep::CopyBuffer { region: c },
            ) =~= copies@.subrange(0, i as int).map_values(
                |c: BufferCopyRegion| ImmediateStep::CopyBuffer { region: c },
            ).push(ImmediateStep::CopyBuffer { region: copies@[i as int] }));
            assert(steps@ =~= seq![
                ImmediateStep::ResetFence,
                ImmediateStep::ResetCommandBuffer,
                ImmediateStep::BeginCommandBuffer,
            ] + copies@.subrange(0, i + 1 as int).map_values(
                |c: BufferCopyRegion| ImmediateStep::CopyBuffer { region: c },
            ));
        }
        i = i + 1;
    }
    proof {
        assert(copies@.subrange(0, n as int) =~= copies@);
    }
    steps.push(ImmediateStep::EndCommandBuffer);
    steps.push(ImmediateStep::Submit);
    steps.push(ImmediateStep::WaitFence);
    assert(steps@ =~= spec_immediate_submit(copies@));
    steps
}

/// The recording bracket is well formed: the begin comes before every
/// recorded copy, the end after every copy, the submit after the end, and
/// the blocking wait is the final step.
pub proof fn lemma_immediate_submit_ordering(copies: Seq<BufferCopyRegion>)
    ensures
        ({
            let steps = spec_immediate_submit(copies);
            &&& steps.len() == copies.len() + 6
            &&& steps[2] == ImmediateStep::BeginCommandBuffer
            &&& forall|i: int| 0 <= i < copies.len() ==> steps[3 + i] == (ImmediateStep::CopyBuffer {
                region: copies[i],
            })
            &&& steps[steps.len() - 3] == ImmediateStep::EndCommandBuffer
            &&& steps[steps.len() - 2] == ImmediateStep::Submit
            &&& steps[steps.len() - 1] == ImmediateStep::WaitFence
        }),
{
    let steps = spec_immediate_submit(copies);
    assert(copies.map_values(|c: BufferCopyRegion| ImmediateStep::CopyBuffer { region: c }).len()
        == copies.len());
    assert forall|i: int| 0 <= i < copies.len() implies steps[3 + i] == (ImmediateStep::CopyBuffer {
        region: copies[i],
    }) by {
        assert(copies.map_values(|c: BufferCopyRegion| ImmediateStep::CopyBuffer { region: c })[i]
            == ImmediateStep::CopyBuffer { region: copies[i] });
    };
}

} // verus!
