use rulkan::buffers::{copy_bytes, upload_elements, MemoryLocation};
use rulkan::scene::{encode_triangles, Triangle};

#[test]
fn upload_then_read_back_is_byte_for_byte() {
    let data: Vec<u8> = (0u8..=255).cycle().take(1024).collect();
    let plan = upload_elements(&data);
    assert_eq!(plan.staging_contents, data);

    // The copy command the plan replays: staging into the GPU buffer,
    // modelled as a host buffer of the same size, then back out.
    let mut gpu = vec![0u8; data.len()];
    copy_bytes(&plan.staging_contents, &mut gpu);
    let mut read_back = vec![0u8; data.len()];
    copy_bytes(&gpu, &mut read_back);
    assert_eq!(read_back, data);
}

#[test]
fn typed_elements_round_trip_through_staging() {
    let triangles = vec![Triangle::default(); 5];
    let bytes = encode_triangles(&triangles);
    assert_eq!(bytes.len(), 5 * 64);

    let plan = upload_elements(&bytes);
    assert_eq!(plan.destination.size, 5 * 64);
    assert_eq!(plan.staging.size, 5 * 64);
    assert_eq!(plan.copy.src_offset, 0);
    assert_eq!(plan.copy.dst_offset, 0);
    assert_eq!(plan.copy.size, 5 * 64);

    let mut gpu = vec![0u8; bytes.len()];
    copy_bytes(&plan.staging_contents, &mut gpu);
    assert_eq!(gpu, bytes);
}

#[test]
fn upload_plan_flags_and_memory_locations() {
    let data = vec![7u8; 16];
    let plan = upload_elements(&data);
    assert!(plan.destination.usage.storage_buffer);
    assert!(plan.destination.usage.transfer_dst);
    assert!(!plan.destination.usage.transfer_src);
    assert_eq!(plan.destination.memory_usage, MemoryLocation::GpuOnly);
    assert!(plan.staging.usage.transfer_src);
    assert!(!plan.staging.usage.storage_buffer);
    assert_eq!(plan.staging.memory_usage, MemoryLocation::CpuOnly);
    assert!(plan.destination.mapped && plan.staging.mapped);
}

#[test]
fn triangle_encoding_is_little_endian_with_padding() {
    let t = Triangle::default();
    let bytes = encode_triangles(&vec![t]);
    assert_eq!(bytes.len(), 64);
    // p0.x is the bit pattern of -1.0: 0xbf800000, little-endian.
    assert_eq!(&bytes[0..4], &[0x00, 0x00, 0x80, 0xbf]);
    // p0.w is the bit pattern of 1.0.
    assert_eq!(&bytes[12..16], &[0x00, 0x00, 0x80, 0x3f]);
    // p1.x is the bit pattern of 1.0.
    assert_eq!(&bytes[16..20], &[0x00, 0x00, 0x80, 0x3f]);
    // model index 0 and the tail padding are all zero.
    assert!(bytes[48..64].iter().all(|&b| b == 0));
}
