//! The frame ring: a fixed set of per-frame command and synchronization
//! resources, addressed round-robin by the frame counter.
//!
//! Slot `frame_number % FRAME_OVERLAP` carries one frame's command pool,
//! command buffer, two semaphores and a fence.  Driver handles are held as
//! plain 64-bit values; the null handle is 0.

use vstd::prelude::*;

verus! {

/// How many frames may be in flight at once.
pub const FRAME_OVERLAP: usize = 2;

/// One slot of per-frame resources.  Handles are raw 64-bit driver handles;
/// 0 is the null handle.
#[derive(Clone, Copy, PartialEq, Eq, Structural)]
pub struct FrameData {
    pub command_pool: u64,
    pub command_buffer: u64,
    pub swapchain_semaphore: u64,
    pub render_semaphore: u64,
    pub render_fence: u64,
}

impl FrameData {
    /// All sync primitives and command resources of the slot are present
    /// (non-null).  This must hold for every slot before the render loop
    /// starts.
    pub open spec fn all_sync_present(&self) -> bool {
        &&& self.render_fence != 0
        &&& self.render_semaphore != 0
        &&& self.swapchain_semaphore != 0
        &&& self.command_pool != 0
        &&& self.command_buffer != 0
    }

    /// Pre-flight check of one slot: callable only once every field has been
    /// filled in.
    pub fn check(&self)
        requires
            self.all_sync_present(),
    {
        assert(self.render_fence != 0);
        assert(self.render_semaphore != 0);
        assert(self.swapchain_semaphore != 0);
        assert(self.command_pool != 0);
        assert(self.command_buffer != 0);
    }

    /// Runtime test of the same condition, for callers that have not yet
    /// established it.
    pub fn sync_present(&self) -> (r: bool)
        ensures
            r == self.all_sync_present(),
    {
        self.render_fence != 0
            && self.render_semaphore != 0
            && self.swapchain_semaphore != 0
            && self.command_pool != 0
            && self.command_buffer != 0
    }
}

/// The slot that frame `n` uses.
pub open spec fn frame_slot(n: nat) -> nat {
    n % (FRAME_OVERLAP as nat)
}

/// The double-buffered ring itself: the slots plus the monotone frame counter.
pub struct FrameRing {
    pub frames: [FrameData; FRAME_OVERLAP],
    pub frame_number: u64,
}

impl FrameRing {
    /// Every slot of the ring has passed the pre-flight check.
    pub open spec fn wf(&self) -> bool {
        forall|i: int| 0 <= i < FRAME_OVERLAP ==> #[trigger] self.frames[i].all_sync_present()
    }

    /// A fresh ring: both slots empty, counter at zero.
    pub fn init_frames() -> (r: Self)
        ensures
            r.frame_number == 0,
            forall|i: int| 0 <= i < FRAME_OVERLAP ==> #[trigger] r.frames[i] == (FrameData {
                command_pool: 0,
                command_buffer: 0,
                swapchain_semaphore: 0,
                render_semaphore: 0,
                render_fence: 0,
            }),
    {
        let empty = FrameData {
            command_pool: 0,
            command_buffer: 0,
            swapchain_semaphore: 0,
            render_semaphore: 0,
            render_fence: 0,
        };
        FrameRing { frames: [empty, empty], frame_number: 0 }
    }

    /// Index of the slot the current frame uses.
    pub fn current_slot(&self) -> (r: usize)
        ensures
            r == frame_slot(self.frame_number as nat),
            r < FRAME_OVERLAP,
    {
        (self.frame_number % (FRAME_OVERLAP as u64)) as usize
    }

    /// The per-frame resources of the current frame.
    pub fn get_current_frame(&self) -> (r: &FrameData)
        ensures
            *r == self.frames[frame_slot(self.frame_number as nat) as int],
    {
        let slot = self.current_slot();
        &self.frames[slot]
    }

    /// Move on to the next frame.
    pub fn advance(&mut self)
        requires
            old(self).frame_number < u64::MAX,
        ensures
            final(self).frame_number == old(self).frame_number + 1,
            final(self).frames == old(self).frames,
    {
        self.frame_number = self.frame_number + 1;
    }
}

/// Creation parameters of one command pool: whether its buffers may be
/// reset one by one, and which queue family it serves.
#[derive(Clone, Copy, PartialEq, Eq, Structural, Debug)]
pub struct CommandPoolPlan {
    pub reset_command_buffer: bool,
    pub queue_family_index: u32,
}

/// Allocation parameters of the command buffers drawn from one pool.
#[derive(Clone, Copy, PartialEq, Eq, Structural, Debug)]
pub struct CommandBufferPlan {
    pub count: u32,
    pub primary: bool,
}

/// Creation parameters of one fence.
#[derive(Clone, Copy, PartialEq, Eq, Structural, Debug)]
pub struct FenceCreatePlan {
    pub signaled: bool,
}

/// What each slot's command resources are created with.
#[derive(Clone, Copy, PartialEq, Eq, Structural, Debug)]
pub struct FrameCommandsPlan {
    pub command_pool: CommandPoolPlan,
    pub command_buffers: CommandBufferPlan,
}

/// What each slot's synchronization primitives are created with.
#[derive(Clone, Copy, PartialEq, Eq, Structural, Debug)]
pub struct FrameSyncPlan {
    pub render_fence: FenceCreatePlan,
    pub semaphore_count: u32,
}

/// The command resources of every slot: a pool on the graphics family
/// whose buffers can be reset individually (each frame re-records its
/// buffer in place), holding one primary command buffer.
pub fn init_commands(queue_family_index: u32) -> (r: FrameCommandsPlan)
    ensures
        r.command_pool == (CommandPoolPlan {
            reset_command_buffer: true,
            queue_family_index: queue_family_index,
        }),
        r.command_buffers == (CommandBufferPlan { count: 1, primary: true }),
{
    FrameCommandsPlan {
        command_pool: CommandPoolPlan { reset_command_buffer: true, queue_family_index },
        command_buffers: CommandBufferPlan { count: 1, primary: true },
    }
}

/// The synchronization primitives of every slot: the render fence is
/// created already signaled — the very first wait on a slot must return at
/// once, since no work was ever submitted on it — plus the acquire and
/// render semaphores.
pub fn init_sync_structuress() -> (r: FrameSyncPlan)
    ensures
        r.render_fence.signaled,
        r.semaphore_count == 2,
{
    FrameSyncPlan {
        render_fence: FenceCreatePlan { signaled: true },
        semaphore_count: 2,
    }
}

/// Consecutive frames use distinct slots, and the slot assignment wraps with
/// period `FRAME_OVERLAP`: frame `n + FRAME_OVERLAP` reuses frame `n`'s slot.
pub proof fn lemma_frame_slots_round_robin(n: nat)
    ensures
        frame_slot(n) < FRAME_OVERLAP,
        frame_slot(n) != frame_slot(n + 1),
        frame_slot(n + (FRAME_OVERLAP as nat)) == frame_slot(n),
{
    assert(frame_slot(n) < 2 && frame_slot(n) != frame_slot(n + 1)
        && frame_slot(n + 2) == frame_slot(n)) by {
        assert(n % 2 == (n + 2) % 2 && n % 2 != (n + 1) % 2) by (nonlinear_arith);
    };
}

} // verus!
