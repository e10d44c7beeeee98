//! Pool-based descriptor allocation.
//!
//! A pool is sized declaratively: a list of (descriptor type, ratio) pairs
//! times a `max_sets` ceiling, each product rounded down.  Sets are drawn one
//! per call and never freed individually; the pool is reset or destroyed as a
//! unit.

use vstd::prelude::*;

verus! {

/// The kinds of resource a descriptor can bind.
#[derive(Clone, Copy, PartialEq, Eq, Structural, Debug)]
pub enum DescriptorType {
    Sampler,
    CombinedImageSampler,
    SampledImage,
    StorageImage,
    UniformTexelBuffer,
    StorageTexelBuffer,
    UniformBuffer,
    StorageBuffer,
    UniformBufferDynamic,
    StorageBufferDynamic,
    InputAttachment,
}

/// The shader stages a binding is visible to.
#[derive(Clone, Copy, PartialEq, Eq, Structural, Debug)]
pub struct ShaderStages {
    pub compute: bool,
}

impl ShaderStages {
    /// No stage at all.
    pub open spec fn none() -> ShaderStages {
        ShaderStages { compute: false }
    }

    /// The union of two stage sets.
    pub open spec fn union(self, other: ShaderStages) -> ShaderStages {
        ShaderStages { compute: self.compute || other.compute }
    }
}

/// One binding slot of a descriptor-set layout.
#[derive(Clone, Copy, PartialEq, Eq, Structural, Debug)]
pub struct LayoutBinding {
    pub binding: u32,
    pub descriptor_type: DescriptorType,
    pub descriptor_count: u32,
    pub stage_flags: ShaderStages,
}

/// A built descriptor-set layout: its bindings in declaration order.
pub struct DescriptorSetLayout {
    pub bindings: Vec<LayoutBinding>,
}

/// Accumulates bindings one by one, then stamps the shader stages onto all
/// of them.
pub struct DescriptorLayoutBuilder {
    pub bindings: Vec<LayoutBinding>,
}

impl DescriptorLayoutBuilder {
    /// An empty builder.
    pub fn new() -> (r: Self)
        ensures
            r.bindings@ == Seq::<LayoutBinding>::empty(),
    {
        DescriptorLayoutBuilder { bindings: Vec::new() }
    }

    /// Appends one binding of the given type, with a single descriptor and
    /// no stages yet.
    pub fn add_binding(&mut self, binding: u32, descriptor_type: DescriptorType)
        ensures
            final(self).bindings@ == old(self).bindings@.push(LayoutBinding {
                binding: binding,
                descriptor_type: descriptor_type,
                descriptor_count: 1,
                stage_flags: ShaderStages::none(),
            }),
    {
        let new_bind = LayoutBinding {
            binding,
            descriptor_type,
            descriptor_count: 1,
            stage_flags: ShaderStages { compute: false },
        };
        self.bindings.push(new_bind);
    }

    /// Finishes the layout: every accumulated binding becomes visible to the
    /// given stages in addition to any it already had.
    pub fn build(&mut self, shader_stages: ShaderStages) -> (r: DescriptorSetLayout)
        ensures
            r.bindings@.len() == old(self).bindings@.len(),
            forall|i: int| 0 <= i < r.bindings@.len() ==> #[trigger] r.bindings@[i] == (LayoutBinding {
                stage_flags: old(self).bindings@[i].stage_flags.union(shader_stages),
                ..old(self).bindings@[i]
            }),
            final(self).bindings@ == r.bindings@,
    {
        let n = self.bindings.len();
        let mut i: usize = 0;
        while i < n
            invariant
                n == self.bindings@.len(),
                i <= n,
                self.bindings@.len() == old(self).bindings@.len(),
                forall|j: int| i <= j < n ==> #[trigger] self.bindings@[j] == old(self).bindings@[j],
                forall|j: int| 0 <= j < i ==> #[trigger] self.bindings@[j] == (LayoutBinding {
                    stage_flags: old(self).bindings@[j].stage_flags.union(shader_stages),
                    ..old(self).bindings@[j]
                }),
            decreases n - i,
        {
            let b = self.bindings[i];
            let updated = LayoutBinding {
                stage_flags: ShaderStages {
                    compute: b.stage_flags.compute || shader_stages.compute,
                },
                ..b
            };
            self.bindings.set(i, updated);
            i = i + 1;
        }

        let mut out: Vec<LayoutBinding> = Vec::new();
        let mut k: usize = 0;
        while k < n
            invariant
                n == self.bindings@.len(),
                k <= n,
                out@ == self.bindings@.subrange(0, k as int),
            decreases n - k,
        {
            out.push(self.bindings[k]);
            k = k + 1;
        }
        assert(out@ == self.bindings@);
        DescriptorSetLayout { bindings: out }
    }
}

/// One entry of a pool-sizing request: so many descriptors of this type per
/// set, as a ratio `num / den` of the set ceiling.
#[derive(Clone, Copy, PartialEq, Eq, Structural, Debug)]
pub struct PoolSizeRatio {
    pub descriptor_type: DescriptorType,
    pub ratio_num: u32,
    pub ratio_den: u32,
}

impl PoolSizeRatio {
    /// The ratio is a well-formed fraction.
    pub open spec fn wf(&self) -> bool {
        self.ratio_den > 0
    }

    /// The descriptor count this ratio yields for a given set ceiling:
    /// ratio times ceiling, rounded down.
    pub open spec fn scaled(&self, max_sets: u32) -> int {
        (self.ratio_num * max_sets) as int / (self.ratio_den as int)
    }
}

/// One sized slice of a descriptor pool.
#[derive(Clone, Copy, PartialEq, Eq, Structural, Debug)]
pub struct DescriptorPoolSize {
    pub descriptor_type: DescriptorType,
    pub descriptor_count: u32,
}

/// One allocated descriptor set: its index within the pool and the number of
/// bindings of the layout it was drawn against.
#[derive(Clone, Copy, PartialEq, Eq, Structural, Debug)]
pub struct DescriptorSet {
    pub id: u32,
    pub binding_count: usize,
}

/// Owns one descriptor pool and counts the sets drawn from it.
pub struct DescriptorAllocator {
    pub max_sets: u32,
    pub pool_sizes: Vec<DescriptorPoolSize>,
    pub sets_allocated: u32,
}

impl DescriptorAllocator {
    /// An allocator with no pool behind it yet.
    pub fn new() -> (r: Self)
        ensures
            r.max_sets == 0,
            r.pool_sizes@ == Seq::<DescriptorPoolSize>::empty(),
            r.sets_allocated == 0,
    {
        DescriptorAllocator { max_sets: 0, pool_sizes: Vec::new(), sets_allocated: 0 }
    }

    /// Sizes and creates the pool: each requested ratio is scaled by
    /// `max_sets` and rounded down to a whole descriptor count.
    pub fn init_pool(&mut self, max_sets: u32, pool_ratios: &Vec<PoolSizeRatio>)
        requires
            forall|i: int| 0 <= i < pool_ratios@.len() ==> (#[trigger] pool_ratios@[i]).wf(),
            forall|i: int| 0 <= i < pool_ratios@.len()
                ==> (#[trigger] pool_ratios@[i]).scaled(max_sets) <= u32::MAX,
        ensures
            final(self).max_sets == max_sets,
            final(self).sets_allocated == 0,
            final(self).pool_sizes@.len() == pool_ratios@.len(),
            forall|i: int| 0 <= i < pool_ratios@.len()
                ==> #[trigger] final(self).pool_sizes@[i] == (DescriptorPoolSize {
                    descriptor_type: pool_ratios@[i].descriptor_type,
                    descriptor_count: pool_ratios@[i].scaled(max_sets) as u32,
                }),
    {
        let mut sizes: Vec<DescriptorPoolSize> = Vec::new();
        let n = pool_ratios.len();
        let mut i: usize = 0;
        while i < n
            invariant
                n == pool_ratios@.len(),
                i <= n,
                forall|j: int| 0 <= j < n ==> (#[trigger] pool_ratios@[j]).wf(),
                forall|j: int| 0 <= j < n
                    ==> (#[trigger] pool_ratios@[j]).scaled(max_sets) <= u32::MAX,
                sizes@.len() == i,
                forall|j: int| 0 <= j < i ==> #[trigger] sizes@[j] == (DescriptorPoolSize {
                    descriptor_type: pool_ratios@[j].descriptor_type,
                    descriptor_count: pool_ratios@[j].scaled(max_sets) as u32,
                }),
            decreases n - i,
        {
            let ratio = pool_ratios[i];
            proof {
                assert((ratio.ratio_num as u64) * (max_sets as u64) <= u64::MAX)
                    by (nonlinear_arith)
                    requires
                        ratio.ratio_num <= u32::MAX,
                        max_sets <= u32::MAX,
                ;
            }
            let scaled_wide: u64 = (ratio.ratio_num as u64) * (max_sets as u64);
            let count_wide: u64 = scaled_wide / (ratio.ratio_den as u64);
            assert(count_wide == ratio.scaled(max_sets));
            let count: u32 = count_wide as u32;
            sizes.push(DescriptorPoolSize {
                descriptor_type: ratio.descriptor_type,
                descriptor_count: count,
            });
            i = i + 1;
        }
        self.max_sets = max_sets;
        self.pool_sizes = sizes;
        self.sets_allocated = 0;
    }

    /// Draws one set against a built layout.  The pool must still have room;
    /// exhaustion is a caller error by policy.
    pub fn allocate(&mut self, layout: &DescriptorSetLayout) -> (r: DescriptorSet)
        requires
            old(self).sets_allocated < old(self).max_sets,
        ensures
            r.id == old(self).sets_allocated,
            r.binding_count == layout.bindings@.len(),
            final(self).sets_allocated == old(self).sets_allocated + 1,
            final(self).max_sets == old(self).max_sets,
            final(self).pool_sizes@ == old(self).pool_sizes@,
    {
        let id = self.sets_allocated;
        self.sets_allocated = self.sets_allocated + 1;
        DescriptorSet { id, binding_count: layout.bindings.len() }
    }

    /// Resets the pool: every set drawn so far becomes invalid at once.
    pub fn clear_descriptors(&mut self)
        ensures
            final(self).sets_allocated == 0,
            final(self).max_sets == old(self).max_sets,
            final(self).pool_sizes@ == old(self).pool_sizes@,
    {
        self.sets_allocated = 0;
    }

    /// Destroys the pool: the allocator returns to its empty state.
    pub fn clear_pool(&mut self)
        ensures
            final(self).max_sets == 0,
            final(self).sets_allocated == 0,
            final(self).pool_sizes@ == Seq::<DescriptorPoolSize>::empty(),
    {
        self.max_sets = 0;
        self.sets_allocated = 0;
        self.pool_sizes = Vec::new();
    }
}

/// What one descriptor write binds: a storage image in a given layout, or a
/// buffer over its whole size (`byte_size` bytes from offset zero).
#[derive(Clone, Copy, PartialEq, Eq, Structural, Debug)]
pub enum WriteResource {
    Image { layout: crate::barriers::ImageLayout },
    Buffer { byte_size: u64 },
}

/// One descriptor-set write: which set, which binding, what kind, what
/// resource.
#[derive(Clone, Copy, PartialEq, Eq, Structural, Debug)]
pub struct DescriptorWrite {
    pub dst_set: u32,
    pub dst_binding: u32,
    pub descriptor_count: u32,
    pub descriptor_type: DescriptorType,
    pub resource: WriteResource,
}

} // verus!
