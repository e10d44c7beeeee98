use rulkan::commands::{RenderStep, ShaderKind};
use rulkan::descriptors::{DescriptorType, WriteResource};
use rulkan::image_ops::Extent2D;
use rulkan::pipeline_gradient::PipelineGradient;
use rulkan::pipeline_raytracing::PipelineRaytracing;
use rulkan::pipelines::ComputePipeline;
use rulkan::scene::{Material, Model, Scene, Triangle};

fn scene_with(triangles: usize, models: usize, materials: usize) -> Scene {
    let mut scene = Scene::new();
    for _ in 0..materials {
        scene.add_material(Material::default());
    }
    for _ in 0..models {
        scene.models.push(Model::default());
    }
    for _ in 0..triangles {
        scene.triangles.push(Triangle::default());
    }
    scene
}

#[test]
fn raytracing_init_three_triangles_two_models_one_material() {
    let scene = scene_with(3, 2, 1);
    let mut pipeline = PipelineRaytracing::default();
    let setup = pipeline.init(&scene);

    let buffers = setup.scene_buffers.expect("scene buffers must be planned");
    assert_eq!(buffers.triangles_buffer.destination.size, 3 * 64);
    assert_eq!(buffers.models_buffer.destination.size, 2 * 80);
    assert_eq!(buffers.materials_buffer.destination.size, 1 * 16);

    let attrs = pipeline.get_attributes();
    assert_eq!(attrs.descriptors.draw_image_descriptors.binding_count, 4);
    assert_eq!(attrs.descriptors.draw_image_descriptor_layout.bindings.len(), 4);

    assert_eq!(setup.writes.len(), 4);
    assert_eq!(setup.writes[0].descriptor_type, DescriptorType::StorageImage);
    assert_eq!(setup.writes[1].descriptor_type, DescriptorType::StorageBuffer);
    assert_eq!(setup.writes[1].resource, WriteResource::Buffer { byte_size: 192 });
    assert_eq!(setup.writes[2].resource, WriteResource::Buffer { byte_size: 160 });
    assert_eq!(setup.writes[3].resource, WriteResource::Buffer { byte_size: 16 });
}

#[test]
fn raytracing_pool_holds_one_image_and_three_buffer_slices() {
    let scene = scene_with(1, 1, 1);
    let mut pipeline = PipelineRaytracing::default();
    let _ = pipeline.init_descriptors(&scene);
    let attrs = pipeline.get_attributes();
    let sizes = &attrs.descriptors.global_allocator_descriptor.pool_sizes;
    assert_eq!(sizes.len(), 4);
    assert_eq!(sizes[0].descriptor_type, DescriptorType::StorageImage);
    assert_eq!(sizes[1].descriptor_type, DescriptorType::StorageBuffer);
    assert!(sizes.iter().all(|s| s.descriptor_count == 10));
    assert_eq!(attrs.descriptors.global_allocator_descriptor.max_sets, 10);
}

#[test]
fn gradient_init_builds_single_image_binding() {
    let scene = Scene::new();
    let mut pipeline = PipelineGradient::default();
    let setup = pipeline.init(&scene);
    assert!(setup.scene_buffers.is_none());
    assert_eq!(setup.writes.len(), 1);
    assert_eq!(setup.writes[0].descriptor_type, DescriptorType::StorageImage);
    let attrs = pipeline.get_attributes();
    assert_eq!(attrs.descriptors.draw_image_descriptor_layout.bindings.len(), 1);
    assert!(attrs.pipeline.entry_point_main);
    assert_eq!(attrs.pipeline.shader, ShaderKind::Gradient);
    assert_eq!(attrs.pipeline_layout.set_layouts.len(), 1);
}

#[test]
fn pipeline_run_binds_then_dispatches_truncated_grid() {
    let scene = scene_with(1, 1, 1);
    let mut pipeline = PipelineRaytracing::default();
    let _ = pipeline.init(&scene);
    let mut cmds: Vec<RenderStep> = Vec::new();
    let extent = Extent2D { width: 1600, height: 920 };
    pipeline.run(&extent, &mut cmds);
    assert_eq!(cmds.len(), 3);
    assert_eq!(cmds[0], RenderStep::BindComputePipeline { shader: ShaderKind::Raytracing });
    assert_eq!(cmds[1], RenderStep::BindDescriptorSets { first_set: 0, set_id: 0 });
    assert_eq!(cmds[2], RenderStep::Dispatch { x: 100, y: 57, z: 1 });
}
