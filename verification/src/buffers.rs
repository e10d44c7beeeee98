//! GPU buffer creation and the staging-upload protocol.
//!
//! A host array travels to GPU-only memory in three steps: allocate the
//! destination and a CPU-visible staging buffer of the same size, copy the
//! bytes into the mapped staging buffer, then replay a single whole-buffer
//! copy command.  The staging buffer dies right after the copy completes.

use vstd::prelude::*;

verus! {

/// What a buffer may be used for.
#[derive(Clone, Copy, PartialEq, Eq, Structural, Debug)]
pub struct BufferUsage {
    pub storage_buffer: bool,
    pub transfer_src: bool,
    pub transfer_dst: bool,
}

/// Where a buffer's memory lives.
#[derive(Clone, Copy, PartialEq, Eq, Structural, Debug)]
pub enum MemoryLocation {
    GpuOnly,
    CpuOnly,
}

/// Creation parameters of one buffer.  Allocations are always requested
/// mapped.
#[derive(Clone, Copy, PartialEq, Eq, Structural, Debug)]
pub struct BufferCreatePlan {
    pub size: u64,
    pub usage: BufferUsage,
    pub memory_usage: MemoryLocation,
    pub mapped: bool,
}

/// Assembles the creation parameters of one buffer.
pub fn create_buffer(alloc_size: usize, usage_flags: BufferUsage, memory_usage: MemoryLocation) -> (r: BufferCreatePlan)
    ensures
        r.size == alloc_size,
        r.usage == usage_flags,
        r.memory_usage == memory_usage,
        r.mapped,
{
    BufferCreatePlan {
        size: alloc_size as u64,
        usage: usage_flags,
        memory_usage,
        mapped: true,
    }
}

/// One buffer-to-buffer copy command.
#[derive(Clone, Copy, PartialEq, Eq, Structural, Debug)]
pub struct BufferCopyRegion {
    pub src_offset: u64,
    pub dst_offset: u64,
    pub size: u64,
}

/// The region that copies a whole buffer of `size` bytes, start to start.
pub open spec fn whole_buffer_copy(size: u64) -> BufferCopyRegion {
    BufferCopyRegion { src_offset: 0, dst_offset: 0, size: size }
}

/// The effect of one copy command on the destination's bytes: the source
/// window lands at the destination offset, everything else is untouched.
/// A region that does not fit leaves the destination as it was.
pub open spec fn apply_copy(src: Seq<u8>, dst: Seq<u8>, region: BufferCopyRegion) -> Seq<u8> {
    if region.src_offset + region.size <= src.len() && region.dst_offset + region.size <= dst.len() {
        Seq::new(dst.len(), |i: int|
            if region.dst_offset <= i < region.dst_offset + region.size {
                src[i - region.dst_offset + region.src_offset]
            } else {
                dst[i]
            })
    } else {
        dst
    }
}

/// The one bounded memory copy of the upload path: both sizes are equal
/// beforehand, and afterwards the destination holds exactly the source bytes.
pub fn copy_bytes(src: &Vec<u8>, dst: &mut Vec<u8>)
    requires
        old(dst)@.len() == src@.len(),
    ensures
        final(dst)@ == src@,
{
    let n = src.len();
    let mut i: usize = 0;
    while i < n
        invariant
            n == src@.len(),
            dst@.len() == n,
            i <= n,
            forall|j: int| 0 <= j < i ==> #[trigger] dst@[j] == src@[j],
        decreases n - i,
    {
        let b = src[i];
        dst.set(i, b);
        i = i + 1;
    }
    assert(dst@ =~= src@);
}

/// The complete plan of one upload: both allocations, the staged bytes, and
/// the copy command.  The staging buffer is destroyed once the copy has
/// completed.
pub struct UploadPlan {
    pub destination: BufferCreatePlan,
    pub staging: BufferCreatePlan,
    pub staging_contents: Vec<u8>,
    pub copy: BufferCopyRegion,
}

impl UploadPlan {
    /// The plan uploads exactly `data`: the staged bytes are `data`, both
    /// buffers are sized to it, and the copy covers all of it.
    pub open spec fn uploads(&self, data: Seq<u8>) -> bool {
        &&& self.staging_contents@ == data
        &&& self.destination.size == data.len()
        &&& self.destination.usage == (BufferUsage {
            storage_buffer: true,
            transfer_src: false,
            transfer_dst: true,
        })
        &&& self.destination.memory_usage == MemoryLocation::GpuOnly
        &&& self.staging.size == data.len()
        &&& self.staging.usage == (BufferUsage {
            storage_buffer: false,
            transfer_src: true,
            transfer_dst: false,
        })
        &&& self.staging.memory_usage == MemoryLocation::CpuOnly
        &&& self.copy == whole_buffer_copy(data.len() as u64)
    }
}

/// Plans the upload of a host-resident byte array into a GPU-only storage
/// buffer.
pub fn upload_elements(elements: &Vec<u8>) -> (r: UploadPlan)
    ensures
        r.uploads(elements@),
{
    let size = elements.len();
    let destination = create_buffer(
        size,
        BufferUsage { storage_buffer: true, transfer_src: false, transfer_dst: true },
        MemoryLocation::GpuOnly,
    );
    let staging = create_buffer(
        size,
        BufferUsage { storage_buffer: false, transfer_src: true, transfer_dst: false },
        MemoryLocation::CpuOnly,
    );
    let mut staged: Vec<u8> = Vec::new();
    let mut i: usize = 0;
    while i < size
        invariant
            size == elements@.len(),
            i <= size,
            staged@ == elements@.subrange(0, i as int),
        decreases size - i,
    {
        staged.push(elements[i]);
        i = i + 1;
    }
    assert(staged@ =~= elements@);
    UploadPlan {
        destination,
        staging,
        staging_contents: staged,
        copy: BufferCopyRegion { src_offset: 0, dst_offset: 0, size: size as u64 },
    }
}

/// Round trip: staging an array, copying it whole into a GPU buffer of the
/// same size, then copying that buffer whole back into a host buffer of the
/// same size hands the content back byte for byte.  No partial-copy
/// state is observable at either end.
pub proof fn lemma_upload_round_trip(data: Seq<u8>, gpu: Seq<u8>, host: Seq<u8>)
    requires
        data.len() <= u64::MAX,
        gpu.len() == data.len(),
        host.len() == data.len(),
    ensures
        ({
            let uploaded = apply_copy(data, gpu, whole_buffer_copy(data.len() as u64));
            let read_back = apply_copy(uploaded, host, whole_buffer_copy(data.len() as u64));
            uploaded == data && read_back == data
        }),
{
    let region = whole_buffer_copy(data.len() as u64);
    let uploaded = apply_copy(data, gpu, region);
    assert(uploaded =~= data);
    let read_back = apply_copy(uploaded, host, region);
    assert(read_back =~= data);
}

} // verus!
