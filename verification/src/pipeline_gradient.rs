//! The gradient generator: a compute pipeline writing straight into the
//! draw image, with a single storage-image binding.

use vstd::prelude::*;

use crate::barriers::ImageLayout;
use crate::commands::{RenderStep, ShaderKind};
use crate::descriptors::{
    DescriptorAllocator, DescriptorLayoutBuilder, DescriptorPoolSize, DescriptorSet,
    DescriptorSetLayout, DescriptorType, DescriptorWrite, LayoutBinding, PoolSizeRatio,
    ShaderStages, WriteResource,
};
use crate::image_ops::Extent2D;
use crate::pipelines::{
    attributes_cleared, copy_layout, pipeline_run_steps, ComputePipeline, ComputePipelinePlan,
    DescriptorSetup, Descriptors, PipelineAttributes, PipelineLayoutPlan,
};
use crate::scene::Scene;

verus! {

/// The one binding of the gradient pipeline: the draw image as a storage
/// image, visible to compute.
pub open spec fn gradient_bindings() -> Seq<LayoutBinding> {
    seq![
        LayoutBinding {
            binding: 0,
            descriptor_type: DescriptorType::StorageImage,
            descriptor_count: 1,
            stage_flags: ShaderStages { compute: true },
        },
    ]
}

/// Finished gradient descriptors: a pool of ten sets with ten storage
/// images, one set drawn, laid out as `gradient_bindings`.
pub open spec fn gradient_descriptors(d: Descriptors) -> bool {
    &&& d.global_allocator_descriptor.max_sets == 10
    &&& d.global_allocator_descriptor.pool_sizes@ == seq![
        DescriptorPoolSize { descriptor_type: DescriptorType::StorageImage, descriptor_count: 10 },
    ]
    &&& d.global_allocator_descriptor.sets_allocated == 1
    &&& d.draw_image_descriptor_layout.bindings@ == gradient_bindings()
    &&& d.draw_image_descriptors.id == 0
    &&& d.draw_image_descriptors.binding_count == 1
}

/// The gradient pipeline.
pub struct PipelineGradient {
    pub base_attributes: PipelineAttributes,
}

impl Default for PipelineGradient {
    /// A gradient pipeline with nothing built yet.
    fn default() -> (r: Self)
        ensures
            attributes_cleared(r.attributes(), ShaderKind::Gradient),
    {
        PipelineGradient {
            base_attributes: PipelineAttributes {
                descriptors: Descriptors {
                    global_allocator_descriptor: DescriptorAllocator::new(),
                    draw_image_descriptors: DescriptorSet { id: 0, binding_count: 0 },
                    draw_image_descriptor_layout: DescriptorSetLayout { bindings: Vec::new() },
                },
                pipeline: ComputePipelinePlan {
                    shader: ShaderKind::Gradient,
                    entry_point_main: false,
                },
                pipeline_layout: PipelineLayoutPlan { set_layouts: Vec::new() },
            },
        }
    }
}

impl ComputePipeline for PipelineGradient {
    open spec fn shader() -> ShaderKind {
        ShaderKind::Gradient
    }

    open spec fn attributes(&self) -> PipelineAttributes {
        self.base_attributes
    }

    open spec fn descriptors_initialized(&self) -> bool {
        gradient_descriptors(self.base_attributes.descriptors)
    }

    open spec fn layout_created(&self) -> bool {
        self.base_attributes.pipeline_layout.set_layouts@.len() == 1
    }

    open spec fn pipeline_created(&self) -> bool {
        self.base_attributes.pipeline.entry_point_main
    }

    open spec fn setup_matches(scene: Scene, descriptors: Descriptors, setup: DescriptorSetup) -> bool {
        &&& gradient_descriptors(descriptors)
        &&& setup.writes@ == seq![
            DescriptorWrite {
                dst_set: 0,
                dst_binding: 0,
                descriptor_count: 1,
                descriptor_type: DescriptorType::StorageImage,
                resource: WriteResource::Image { layout: ImageLayout::General },
            },
        ]
        &&& setup.scene_buffers is None
    }

    fn get_attributes(&self) -> (r: &PipelineAttributes) {
        &self.base_attributes
    }

    fn init_descriptors(&mut self, _scene: &Scene) -> (r: DescriptorSetup) {
        let mut pool_ratios: Vec<PoolSizeRatio> = Vec::new();
        pool_ratios.push(PoolSizeRatio {
            descriptor_type: DescriptorType::StorageImage,
            ratio_num: 1,
            ratio_den: 1,
        });

        let mut global_allocator_descriptor = DescriptorAllocator::new();
        global_allocator_descriptor.init_pool(10, &pool_ratios);
        assert(global_allocator_descriptor.pool_sizes@ =~= seq![
            DescriptorPoolSize {
                descriptor_type: DescriptorType::StorageImage,
                descriptor_count: 10,
            },
        ]);

        let mut builder = DescriptorLayoutBuilder::new();
        builder.add_binding(0, DescriptorType::StorageImage);
        let draw_image_descriptor_layout = builder.build(ShaderStages { compute: true });
        assert(draw_image_descriptor_layout.bindings@ =~= gradient_bindings());

        let draw_image_descriptors =
            global_allocator_descriptor.allocate(&draw_image_descriptor_layout);

        let mut writes: Vec<DescriptorWrite> = Vec::new();
        writes.push(DescriptorWrite {
            dst_set: draw_image_descriptors.id,
            dst_binding: 0,
            descriptor_count: 1,
            descriptor_type: DescriptorType::StorageImage,
            resource: WriteResource::Image { layout: ImageLayout::General },
        });
        assert(writes@ =~= seq![
            DescriptorWrite {
                dst_set: 0,
                dst_binding: 0,
                descriptor_count: 1,
                descriptor_type: DescriptorType::StorageImage,
                resource: WriteResource::Image { layout: ImageLayout::General },
            },
        ]);

        self.base_attributes.descriptors = Descriptors {
            global_allocator_descriptor,
            draw_image_descriptors,
            draw_image_descriptor_layout,
        };
        DescriptorSetup { writes, scene_buffers: None }
    }

    fn create_pipeline_layout(&mut self) {
        let layout = copy_layout(&self.base_attributes.descriptors.draw_image_descriptor_layout);
        let mut set_layouts: Vec<DescriptorSetLayout> = Vec::new();
        set_layouts.push(layout);
        self.base_attributes.pipeline_layout = PipelineLayoutPlan { set_layouts };
    }

    fn create_compute_pipeline(&mut self) {
        self.base_attributes.pipeline = ComputePipelinePlan {
            shader: ShaderKind::Gradient,
            entry_point_main: true,
        };
    }

    fn run(&self, draw_extent: &Extent2D, cmds: &mut Vec<RenderStep>) {
        let set_id = self.base_attributes.descriptors.draw_image_descriptors.id;
        cmds.push(RenderStep::BindComputePipeline { shader: ShaderKind::Gradient });
        cmds.push(RenderStep::BindDescriptorSets { first_set: 0, set_id });
        cmds.push(RenderStep::Dispatch {
            x: draw_extent.width / crate::pipelines::WORKGROUP_DIM,
            y: draw_extent.height / crate::pipelines::WORKGROUP_DIM,
            z: 1,
        });
        assert(cmds@ =~= old(cmds)@ + pipeline_run_steps(
            ShaderKind::Gradient,
            set_id,
            *draw_extent,
        ));
    }

    fn clear(&mut self) {
        self.base_attributes = PipelineAttributes {
            descriptors: Descriptors {
                global_allocator_descriptor: DescriptorAllocator::new(),
                draw_image_descriptors: DescriptorSet { id: 0, binding_count: 0 },
                draw_image_descriptor_layout: DescriptorSetLayout { bindings: Vec::new() },
            },
            pipeline: ComputePipelinePlan {
                shader: ShaderKind::Gradient,
                entry_point_main: false,
            },
            pipeline_layout: PipelineLayoutPlan { set_layouts: Vec::new() },
        };
    }
}

/// The shader file of the gradient pipeline, relative to the project root.
pub fn gradient_shader_path() -> (r: String)
    ensures
        r@ == "/src/shaders/gradient.spv"@,
{
    "/src/shaders/gradient.spv".to_string()
}

} // verus!
