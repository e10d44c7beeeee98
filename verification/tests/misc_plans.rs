use rulkan::buffers::BufferCopyRegion;
use rulkan::camera::{movement_axis, CameraAxis, CameraMovement};
use rulkan::descriptors::DescriptorType;
use rulkan::gui::init_gui_pool;
use rulkan::image_ops::{init_images, ImageFormat};
use rulkan::immediate::{immediate_submit, init_immediate_submit_structures, ImmediateStep};
use rulkan::params::AppParameters;
use rulkan::pipelines::{PipelineUtils, ShaderParseError};
use rulkan::scene::{Material, Scene};
use rulkan::shutdown::{shutdown_plan, ShutdownStep};

#[test]
fn default_parameters_name_the_window() {
    let params = AppParameters::default();
    assert_eq!(params.name, "Rulkan");
    assert_eq!(params.window_width, 1280);
    assert_eq!(params.window_height, 720);
}

#[test]
fn draw_image_matches_window_and_is_gpu_local() {
    let params = AppParameters::default();
    let plan = init_images(&params);
    assert_eq!(plan.extent.width, 1280);
    assert_eq!(plan.extent.height, 720);
    assert_eq!(plan.extent.depth, 1);
    assert_eq!(plan.format, ImageFormat::R16G16B16A16Sfloat);
    assert!(plan.usage.transfer_src && plan.usage.transfer_dst);
    assert!(plan.usage.storage && plan.usage.color_attachment);
    assert_eq!(plan.mip_levels, 1);
    assert!(plan.device_local);
}

#[test]
fn immediate_submit_brackets_the_copies_and_blocks_last() {
    let copies = vec![
        BufferCopyRegion { src_offset: 0, dst_offset: 0, size: 64 },
        BufferCopyRegion { src_offset: 0, dst_offset: 64, size: 16 },
    ];
    let steps = immediate_submit(&copies);
    assert_eq!(steps.len(), 8);
    assert_eq!(steps[0], ImmediateStep::ResetFence);
    assert_eq!(steps[1], ImmediateStep::ResetCommandBuffer);
    assert_eq!(steps[2], ImmediateStep::BeginCommandBuffer);
    assert_eq!(steps[3], ImmediateStep::CopyBuffer { region: copies[0] });
    assert_eq!(steps[4], ImmediateStep::CopyBuffer { region: copies[1] });
    assert_eq!(steps[5], ImmediateStep::EndCommandBuffer);
    assert_eq!(steps[6], ImmediateStep::Submit);
    assert_eq!(steps[7], ImmediateStep::WaitFence);
}

#[test]
fn immediate_structures_are_resettable_with_signaled_fence() {
    let plan = init_immediate_submit_structures(3);
    assert!(plan.command_pool.reset_command_buffer);
    assert_eq!(plan.command_pool.queue_family_index, 3);
    assert_eq!(plan.command_buffers.count, 1);
    assert!(plan.command_buffers.primary);
    assert!(plan.fence.signaled);
}

#[test]
fn shutdown_waits_for_idle_then_frees_before_the_allocator() {
    let steps = shutdown_plan();
    assert_eq!(steps[0], ShutdownStep::WaitDeviceIdle);
    let allocator = steps.iter().position(|s| *s == ShutdownStep::DestroyAllocator).unwrap();
    let images = steps.iter().position(|s| *s == ShutdownStep::ClearImages).unwrap();
    let frames = steps.iter().position(|s| *s == ShutdownStep::ClearFrames).unwrap();
    let device = steps.iter().position(|s| *s == ShutdownStep::ClearDevice).unwrap();
    assert!(images < allocator && frames < allocator);
    assert!(allocator < device);
    assert_eq!(steps.len(), 11);
}

#[test]
fn gui_pool_covers_eleven_types_with_a_thousand_each() {
    let plan = init_gui_pool();
    assert_eq!(plan.max_sets, 1000);
    assert!(plan.free_descriptor_set);
    assert_eq!(plan.pool_sizes.len(), 11);
    assert!(plan.pool_sizes.iter().all(|s| s.descriptor_count == 1000));
    assert_eq!(plan.pool_sizes[0].descriptor_type, DescriptorType::Sampler);
    assert_eq!(plan.pool_sizes[10].descriptor_type, DescriptorType::InputAttachment);
}

#[test]
fn camera_movement_maps_to_axis_and_sign() {
    assert_eq!(movement_axis(&CameraMovement::FORWARD), (CameraAxis::At, false));
    assert_eq!(movement_axis(&CameraMovement::BACKWARD), (CameraAxis::At, true));
    assert_eq!(movement_axis(&CameraMovement::LEFT), (CameraAxis::Right, false));
    assert_eq!(movement_axis(&CameraMovement::RIGHT), (CameraAxis::Right, true));
    assert_eq!(movement_axis(&CameraMovement::UP), (CameraAxis::WorldUp, true));
    assert_eq!(movement_axis(&CameraMovement::DOWN), (CameraAxis::WorldUp, false));
}

#[test]
fn default_scene_is_one_material_one_model_one_triangle() {
    let mut scene = Scene::new();
    scene.init();
    assert_eq!(scene.materials.len(), 1);
    assert_eq!(scene.models.len(), 1);
    assert_eq!(scene.triangles.len(), 1);
    assert_eq!(scene.triangles[0].model_index, 0);
    assert_eq!(scene.models[0].material_index, 0);
    assert_eq!(scene.materials[0], Material::default());
}

#[test]
fn spirv_words_require_alignment_and_magic() {
    // A two-word module starting with the magic number, little-endian.
    let module = vec![0x03, 0x02, 0x23, 0x07, 0x11, 0x22, 0x33, 0x44];
    let words = PipelineUtils::parse_spirv(&module).unwrap();
    assert_eq!(words, vec![0x0723_0203, 0x4433_2211]);

    let misaligned = vec![0x03, 0x02, 0x23];
    assert_eq!(
        PipelineUtils::parse_spirv(&misaligned),
        Err(ShaderParseError::NotWordAligned)
    );

    let wrong_magic = vec![0x00, 0x00, 0x00, 0x00];
    assert_eq!(
        PipelineUtils::parse_spirv(&wrong_magic),
        Err(ShaderParseError::MissingMagicNumber)
    );

    let empty: Vec<u8> = Vec::new();
    assert_eq!(
        PipelineUtils::parse_spirv(&empty),
        Err(ShaderParseError::MissingMagicNumber)
    );
}

#[test]
fn byte_swapped_spirv_module_is_corrected() {
    // The same module written big-endian: the parser swaps every word.
    let module = vec![0x07, 0x23, 0x02, 0x03, 0x44, 0x33, 0x22, 0x11];
    let words = PipelineUtils::parse_spirv(&module).unwrap();
    assert_eq!(words, vec![0x0723_0203, 0x4433_2211]);
}
