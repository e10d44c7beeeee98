use rulkan::descriptors::{
    DescriptorAllocator, DescriptorLayoutBuilder, DescriptorType, PoolSizeRatio, ShaderStages,
};

#[test]
fn pool_with_unit_ratio_and_ten_sets_holds_ten_descriptors() {
    let ratios = vec![PoolSizeRatio {
        descriptor_type: DescriptorType::StorageImage,
        ratio_num: 1,
        ratio_den: 1,
    }];
    let mut allocator = DescriptorAllocator::new();
    allocator.init_pool(10, &ratios);
    assert_eq!(allocator.max_sets, 10);
    assert_eq!(allocator.pool_sizes.len(), 1);
    assert_eq!(allocator.pool_sizes[0].descriptor_type, DescriptorType::StorageImage);
    assert_eq!(allocator.pool_sizes[0].descriptor_count, 10);
}

#[test]
fn pool_ratio_rounds_down() {
    let ratios = vec![PoolSizeRatio {
        descriptor_type: DescriptorType::StorageBuffer,
        ratio_num: 1,
        ratio_den: 2,
    }];
    let mut allocator = DescriptorAllocator::new();
    allocator.init_pool(5, &ratios);
    assert_eq!(allocator.pool_sizes[0].descriptor_count, 2);
}

#[test]
fn allocate_counts_sets_and_reset_clears_them() {
    let ratios = vec![PoolSizeRatio {
        descriptor_type: DescriptorType::StorageImage,
        ratio_num: 1,
        ratio_den: 1,
    }];
    let mut allocator = DescriptorAllocator::new();
    allocator.init_pool(10, &ratios);

    let mut builder = DescriptorLayoutBuilder::new();
    builder.add_binding(0, DescriptorType::StorageImage);
    let layout = builder.build(ShaderStages { compute: true });

    let first = allocator.allocate(&layout);
    let second = allocator.allocate(&layout);
    assert_eq!(first.id, 0);
    assert_eq!(second.id, 1);
    assert_eq!(allocator.sets_allocated, 2);

    allocator.clear_descriptors();
    assert_eq!(allocator.sets_allocated, 0);
    assert_eq!(allocator.max_sets, 10);

    allocator.clear_pool();
    assert_eq!(allocator.max_sets, 0);
    assert_eq!(allocator.pool_sizes.len(), 0);
}

#[test]
fn layout_builder_stamps_stages_on_every_binding() {
    let mut builder = DescriptorLayoutBuilder::new();
    builder.add_binding(0, DescriptorType::StorageImage);
    builder.add_binding(1, DescriptorType::StorageBuffer);
    assert!(!builder.bindings[0].stage_flags.compute);
    let layout = builder.build(ShaderStages { compute: true });
    assert_eq!(layout.bindings.len(), 2);
    assert_eq!(layout.bindings[0].binding, 0);
    assert_eq!(layout.bindings[0].descriptor_type, DescriptorType::StorageImage);
    assert_eq!(layout.bindings[0].descriptor_count, 1);
    assert!(layout.bindings[0].stage_flags.compute);
    assert_eq!(layout.bindings[1].binding, 1);
    assert_eq!(layout.bindings[1].descriptor_type, DescriptorType::StorageBuffer);
    assert!(layout.bindings[1].stage_flags.compute);
}
