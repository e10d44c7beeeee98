use rulkan::barriers::{
    barrier_for_transition, record_transition, ImageAspect, ImageLayout, REMAINING,
};

#[test]
fn transition_twice_yields_identical_barriers() {
    let first = barrier_for_transition(ImageLayout::Undefined, ImageLayout::General);
    let second = barrier_for_transition(ImageLayout::Undefined, ImageLayout::General);
    assert_eq!(first, second);

    let mut log = Vec::new();
    record_transition(&mut log, ImageLayout::General, ImageLayout::TransferSrcOptimal);
    record_transition(&mut log, ImageLayout::General, ImageLayout::TransferSrcOptimal);
    assert_eq!(log.len(), 2);
    assert_eq!(log[0], log[1]);
}

#[test]
fn depth_layout_selects_depth_aspect() {
    let barrier = barrier_for_transition(
        ImageLayout::Undefined,
        ImageLayout::DepthAttachmentOptimal,
    );
    assert_eq!(barrier.subresource_range.aspect_mask, ImageAspect::Depth);
}

#[test]
fn color_layout_selects_color_aspect_over_all_subresources() {
    let barrier = barrier_for_transition(ImageLayout::Undefined, ImageLayout::PresentSrc);
    assert_eq!(barrier.subresource_range.aspect_mask, ImageAspect::Color);
    assert_eq!(barrier.subresource_range.base_mip_level, 0);
    assert_eq!(barrier.subresource_range.level_count, REMAINING);
    assert_eq!(barrier.subresource_range.base_array_layer, 0);
    assert_eq!(barrier.subresource_range.layer_count, REMAINING);
    assert_eq!(barrier.old_layout, ImageLayout::Undefined);
    assert_eq!(barrier.new_layout, ImageLayout::PresentSrc);
    assert!(barrier.src_access_mask.memory_write);
    assert!(!barrier.src_access_mask.memory_read);
    assert!(barrier.dst_access_mask.memory_write);
    assert!(barrier.dst_access_mask.memory_read);
}
