//! The overlay's descriptor pool: a large free-form pool covering every
//! descriptor type, as immediate-mode GUI backends expect.

use vstd::prelude::*;

use crate::descriptors::{DescriptorPoolSize, DescriptorType};

verus! {

/// How many descriptors of each type, and how many sets, the overlay pool
/// offers.
pub const GUI_POOL_CAPACITY: u32 = 1000;

/// The creation request of the overlay's descriptor pool.
pub struct GuiPoolPlan {
    pub max_sets: u32,
    /// Sets from this pool may be freed one by one.
    pub free_descriptor_set: bool,
    pub pool_sizes: Vec<DescriptorPoolSize>,
}

/// Every descriptor type, in the order the pool requests them.
pub open spec fn gui_pool_sizes() -> Seq<DescriptorPoolSize> {
    seq![
        DescriptorPoolSize {
            descriptor_type: DescriptorType::Sampler,
            descriptor_count: GUI_POOL_CAPACITY,
        },
        DescriptorPoolSize {
            descriptor_type: DescriptorType::CombinedImageSampler,
            descriptor_count: GUI_POOL_CAPACITY,
        },
        DescriptorPoolSize {
            descriptor_type: DescriptorType::SampledImage,
            descriptor_count: GUI_POOL_CAPACITY,
        },
        DescriptorPoolSize {
            descriptor_type: DescriptorType::StorageImage,
            descriptor_count: GUI_POOL_CAPACITY,
        },
        DescriptorPoolSize {
            descriptor_type: DescriptorType::UniformTexelBuffer,
            descriptor_count: GUI_POOL_CAPACITY,
        },
        DescriptorPoolSize {
            descriptor_type: DescriptorType::StorageTexelBuffer,
            descriptor_count: GUI_POOL_CAPACITY,
        },
        DescriptorPoolSize {
            descriptor_type: DescriptorType::UniformBuffer,
            descriptor_count: GUI_POOL_CAPACITY,
        },
        DescriptorPoolSize {
            descriptor_type: DescriptorType::StorageBuffer,
            descriptor_count: GUI_POOL_CAPACITY,
        },
        DescriptorPoolSize {
            descriptor_type: DescriptorType::UniformBufferDynamic,
            descriptor_count: GUI_POOL_CAPACITY,
        },
        DescriptorPoolSize {
            descriptor_type: DescriptorType::StorageBufferDynamic,
            descriptor_count: GUI_POOL_CAPACITY,
        },
        DescriptorPoolSize {
            descriptor_type: DescriptorType::InputAttachment,
            descriptor_count: GUI_POOL_CAPACITY,
        },
    ]
}

/// Builds the overlay pool request: a thousand sets, a thousand
/// descriptors of each of the eleven types, individually freeable.
pub fn init_gui_pool() -> (r: GuiPoolPlan)
    ensures
        r.max_sets == GUI_POOL_CAPACITY,
        r.free_descriptor_set,
        r.pool_sizes@ == gui_pool_sizes(),
{
    let mut pool_sizes: Vec<DescriptorPoolSize> = Vec::new();
    pool_sizes.push(DescriptorPoolSize {
        descriptor_type: DescriptorType::Sampler,
        descriptor_count: GUI_POOL_CAPACITY,
    });
    pool_sizes.push(DescriptorPoolSize {
        descriptor_type: DescriptorType::CombinedImageSampler,
        descriptor_count: GUI_POOL_CAPACITY,
    });
    pool_sizes.push(DescriptorPoolSize {
        descriptor_type: DescriptorType::SampledImage,
        descriptor_count: GUI_POOL_CAPACITY,
    });
    pool_sizes.push(DescriptorPoolSize {
        descriptor_type: DescriptorType::StorageImage,
        descriptor_count: GUI_POOL_CAPACITY,
    });
    pool_sizes.push(DescriptorPoolSize {
        descriptor_type: DescriptorType::UniformTexelBuffer,
        descriptor_count: GUI_POOL_CAPACITY,
    });
    pool_sizes.push(DescriptorPoolSize {
        descriptor_type: DescriptorType::StorageTexelBuffer,
        descriptor_count: GUI_POOL_CAPACITY,
    });
    pool_sizes.push(DescriptorPoolSize {
        descriptor_type: DescriptorType::UniformBuffer,
        descriptor_count: GUI_POOL_CAPACITY,
    });
    pool_sizes.push(DescriptorPoolSize {
        descriptor_type: DescriptorType::StorageBuffer,
        descriptor_count: GUI_POOL_CAPACITY,
    });
    pool_sizes.push(DescriptorPoolSize {
        descriptor_type: DescriptorType::UniformBufferDynamic,
        descriptor_count: GUI_POOL_CAPACITY,
    });
    pool_sizes.push(DescriptorPoolSize {
        descriptor_type: DescriptorType::StorageBufferDynamic,
        descriptor_count: GUI_POOL_CAPACITY,
    });
    pool_sizes.push(DescriptorPoolSize {
        descriptor_type: DescriptorType::InputAttachment,
        descriptor_count: GUI_POOL_CAPACITY,
    });
    assert(pool_sizes@ =~= gui_pool_sizes());
    GuiPoolPlan { max_sets: GUI_POOL_CAPACITY, free_descriptor_set: true, pool_sizes }
}

} // verus!
