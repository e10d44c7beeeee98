//! The compute raytracer: a pipeline over the draw image and the three
//! scene buffers (triangles, models, materials), uploaded before its
//! descriptors are written.

use vstd::prelude::*;

use crate::barriers::ImageLayout;
use crate::commands::{RenderStep, ShaderKind};
use crate::descriptors::{
    DescriptorAllocator, DescriptorLayoutBuilder, DescriptorPoolSize, DescriptorSet,
    DescriptorSetLayout, DescriptorType, DescriptorWrite, LayoutBinding, PoolSizeRatio,
    ShaderStages, WriteResource,
};
use crate::image_ops::Extent2D;
use crate::pipelines::{
    attributes_cleared, copy_layout, pipeline_run_steps, ComputePipeline, ComputePipelinePlan,
    DescriptorSetup, Descriptors, PipelineAttributes, PipelineLayoutPlan,
};
use crate::scene::{
    materials_bytes, models_bytes, triangles_bytes, Scene, MATERIAL_STRIDE, MODEL_STRIDE,
    TRIANGLE_STRIDE,
};

verus! {

/// The four bindings of the raytracer: the draw image, then the triangle,
/// model and material buffers, all visible to compute.
pub open spec fn raytracing_bindings() -> Seq<LayoutBinding> {
    seq![
        LayoutBinding {
            binding: 0,
            descriptor_type: DescriptorType::StorageImage,
            descriptor_count: 1,
            stage_flags: ShaderStages { compute: true },
        },
        LayoutBinding {
            binding: 1,
            descriptor_type: DescriptorType::StorageBuffer,
            descriptor_count: 1,
            stage_flags: ShaderStages { compute: true },
        },
        LayoutBinding {
            binding: 2,
            descriptor_type: DescriptorType::StorageBuffer,
            descriptor_count: 1,
            stage_flags: ShaderStages { compute: true },
        },
        LayoutBinding {
            binding: 3,
            descriptor_type: DescriptorType::StorageBuffer,
            descriptor_count: 1,
            stage_flags: ShaderStages { compute: true },
        },
    ]
}

/// The raytracer's pool request: one storage image and three storage
/// buffers per set.
pub open spec fn raytracing_pool_sizes() -> Seq<DescriptorPoolSize> {
    seq![
        DescriptorPoolSize { descriptor_type: DescriptorType::StorageImage, descriptor_count: 10 },
        DescriptorPoolSize { descriptor_type: DescriptorType::StorageBuffer, descriptor_count: 10 },
        DescriptorPoolSize { descriptor_type: DescriptorType::StorageBuffer, descriptor_count: 10 },
        DescriptorPoolSize { descriptor_type: DescriptorType::StorageBuffer, descriptor_count: 10 },
    ]
}

/// Finished raytracer descriptors: the ten-set pool sized as
/// `raytracing_pool_sizes`, one set drawn, laid out as
/// `raytracing_bindings`.
pub open spec fn raytracing_descriptors(d: Descriptors) -> bool {
    &&& d.global_allocator_descriptor.max_sets == 10
    &&& d.global_allocator_descriptor.pool_sizes@ == raytracing_pool_sizes()
    &&& d.global_allocator_descriptor.sets_allocated == 1
    &&& d.draw_image_descriptor_layout.bindings@ == raytracing_bindings()
    &&& d.draw_image_descriptors.id == 0
    &&& d.draw_image_descriptors.binding_count == 4
}

/// The raytracing pipeline.
pub struct PipelineRaytracing {
    pub base_attributes: PipelineAttributes,
}

impl Default for PipelineRaytracing {
    /// A raytracing pipeline with nothing built yet.
    fn default() -> (r: Self)
        ensures
            attributes_cleared(r.attributes(), ShaderKind::Raytracing),
    {
        PipelineRaytracing {
            base_attributes: PipelineAttributes {
                descriptors: Descriptors {
                    global_allocator_descriptor: DescriptorAllocator::new(),
                    draw_image_descriptors: DescriptorSet { id: 0, binding_count: 0 },
                    draw_image_descriptor_layout: DescriptorSetLayout { bindings: Vec::new() },
                },
                pipeline: ComputePipelinePlan {
                    shader: ShaderKind::Raytracing,
                    entry_point_main: false,
                },
                pipeline_layout: PipelineLayoutPlan { set_layouts: Vec::new() },
            },
        }
    }
}

impl ComputePipeline for PipelineRaytracing {
    open spec fn shader() -> ShaderKind {
        ShaderKind::Raytracing
    }

    open spec fn attributes(&self) -> PipelineAttributes {
        self.base_attributes
    }

    open spec fn descriptors_initialized(&self) -> bool {
        raytracing_descriptors(self.base_attributes.descriptors)
    }

    open spec fn layout_created(&self) -> bool {
        self.base_attributes.pipeline_layout.set_layouts@.len() == 1
    }

    open spec fn pipeline_created(&self) -> bool {
        self.base_attributes.pipeline.entry_point_main
    }

    /// The setup carries the three scene uploads, each destination sized
    /// count times element stride, and four writes: the draw image, then
    /// the three buffers whole.
    open spec fn setup_matches(scene: Scene, descriptors: Descriptors, setup: DescriptorSetup) -> bool {
        &&& raytracing_descriptors(descriptors)
        &&& setup.scene_buffers matches Some(b) && {
            &&& b.triangles_buffer.uploads(triangles_bytes(scene.triangles@))
            &&& b.triangles_buffer.destination.size == scene.triangles@.len() * TRIANGLE_STRIDE
            &&& b.models_buffer.uploads(models_bytes(scene.models@))
            &&& b.models_buffer.destination.size == scene.models@.len() * MODEL_STRIDE
            &&& b.materials_buffer.uploads(materials_bytes(scene.materials@))
            &&& b.materials_buffer.destination.size == scene.materials@.len() * MATERIAL_STRIDE
            &&& setup.writes@ == seq![
                DescriptorWrite {
                    dst_set: 0,
                    dst_binding: 0,
                    descriptor_count: 1,
                    descriptor_type: DescriptorType::StorageImage,
                    resource: WriteResource::Image { layout: ImageLayout::General },
                },
                DescriptorWrite {
                    dst_set: 0,
                    dst_binding: 1,
                    descriptor_count: 1,
                    descriptor_type: DescriptorType::StorageBuffer,
                    resource: WriteResource::Buffer {
                        byte_size: b.triangles_buffer.destination.size,
                    },
                },
                DescriptorWrite {
                    dst_set: 0,
                    dst_binding: 2,
                    descriptor_count: 1,
                    descriptor_type: DescriptorType::StorageBuffer,
                    resource: WriteResource::Buffer {
                        byte_size: b.models_buffer.destination.size,
                    },
                },
                DescriptorWrite {
                    dst_set: 0,
                    dst_binding: 3,
                    descriptor_count: 1,
                    descriptor_type: DescriptorType::StorageBuffer,
                    resource: WriteResource::Buffer {
                        byte_size: b.materials_buffer.destination.size,
                    },
                },
            ]
        }
    }

    fn get_attributes(&self) -> (r: &PipelineAttributes) {
        &self.base_attributes
    }

    fn init_descriptors(&mut self, scene: &Scene) -> (r: DescriptorSetup) {
        let mut pool_ratios: Vec<PoolSizeRatio> = Vec::new();
        pool_ratios.push(PoolSizeRatio {
            descriptor_type: DescriptorType::StorageImage,
            ratio_num: 1,
            ratio_den: 1,
        });
        pool_ratios.push(PoolSizeRatio {
            descriptor_type: DescriptorType::StorageBuffer,
            ratio_num: 1,
            ratio_den: 1,
        });
        pool_ratios.push(PoolSizeRatio {
            descriptor_type: DescriptorType::StorageBuffer,
            ratio_num: 1,
            ratio_den: 1,
        });
        pool_ratios.push(PoolSizeRatio {
            descriptor_type: DescriptorType::StorageBuffer,
            ratio_num: 1,
            ratio_den: 1,
        });

        proof {
            assert(pool_ratios@ =~= seq![
                PoolSizeRatio {
                    descriptor_type: DescriptorType::StorageImage,
                    ratio_num: 1,
                    ratio_den: 1,
                },
                PoolSizeRatio {
                    descriptor_type: DescriptorType::StorageBuffer,
                    ratio_num: 1,
                    ratio_den: 1,
                },
                PoolSizeRatio {
                    descriptor_type: DescriptorType::StorageBuffer,
                    ratio_num: 1,
                    ratio_den: 1,
                },
                PoolSizeRatio {
                    descriptor_type: DescriptorType::StorageBuffer,
                    ratio_num: 1,
                    ratio_den: 1,
                },
            ]);
        }

        let mut global_allocator_descriptor = DescriptorAllocator::new();
        global_allocator_descriptor.init_pool(10, &pool_ratios);
        proof {
            let r0 = pool_ratios@[0];
            assert(r0.descriptor_type == DescriptorType::StorageImage);
            assert(r0.ratio_num == 1 && r0.ratio_den == 1);
            assert((1int * 10int) / 1int == 10int) by (nonlinear_arith);
            assert(r0.scaled(10) == 10);
            assert(global_allocator_descriptor.pool_sizes@[0] == (DescriptorPoolSize {
                descriptor_type: r0.descriptor_type,
                descriptor_count: r0.scaled(10) as u32,
            }));
            assert(global_allocator_descriptor.pool_sizes@[0] == (DescriptorPoolSize {
                descriptor_type: DescriptorType::StorageImage,
                descriptor_count: 10,
            }));
            assert(global_allocator_descriptor.pool_sizes@[1] == (DescriptorPoolSize {
                descriptor_type: DescriptorType::StorageBuffer,
                descriptor_count: 10,
            }));
            assert(global_allocator_descriptor.pool_sizes@[2] == (DescriptorPoolSize {
                descriptor_type: DescriptorType::StorageBuffer,
                descriptor_count: 10,
            }));
            assert(global_allocator_descriptor.pool_sizes@[3] == (DescriptorPoolSize {
                descriptor_type: DescriptorType::StorageBuffer,
                descriptor_count: 10,
            }));
            assert(global_allocator_descriptor.pool_sizes@ =~= raytracing_pool_sizes());
        }

        let mut builder = DescriptorLayoutBuilder::new();
        builder.add_binding(0, DescriptorType::StorageImage);
        builder.add_binding(1, DescriptorType::StorageBuffer);
        builder.add_binding(2, DescriptorType::StorageBuffer);
        builder.add_binding(3, DescriptorType::StorageBuffer);
        let descriptor_set_layout = builder.build(ShaderStages { compute: true });
        assert(descriptor_set_layout.bindings@ =~= raytracing_bindings());

        let scene_buffers_gpu = scene.upload_buffers();

        let descriptor_set = global_allocator_descriptor.allocate(&descriptor_set_layout);

        let triangles_size = scene_buffers_gpu.triangles_buffer.destination.size;
        let models_size = scene_buffers_gpu.models_buffer.destination.size;
        let materials_size = scene_buffers_gpu.materials_buffer.destination.size;

        let mut writes: Vec<DescriptorWrite> = Vec::new();
        writes.push(DescriptorWrite {
            dst_set: descriptor_set.id,
            dst_binding: 0,
            descriptor_count: 1,
            descriptor_type: DescriptorType::StorageImage,
            resource: WriteResource::Image { layout: ImageLayout::General },
        });
        writes.push(DescriptorWrite {
            dst_set: descriptor_set.id,
            dst_binding: 1,
            descriptor_count: 1,
            descriptor_type: DescriptorType::StorageBuffer,
            resource: WriteResource::Buffer { byte_size: triangles_size },
        });
        writes.push(DescriptorWrite {
            dst_set: descriptor_set.id,
            dst_binding: 2,
            descriptor_count: 1,
            descriptor_type: DescriptorType::StorageBuffer,
            resource: WriteResource::Buffer { byte_size: models_size },
        });
        writes.push(DescriptorWrite {
            dst_set: descriptor_set.id,
            dst_binding: 3,
            descriptor_count: 1,
            descriptor_type: DescriptorType::StorageBuffer,
            resource: WriteResource::Buffer { byte_size: materials_size },
        });

        self.base_attributes.descriptors = Descriptors {
            global_allocator_descriptor,
            draw_image_descriptors: descriptor_set,
            draw_image_descriptor_layout: descriptor_set_layout,
        };

        let setup = DescriptorSetup { writes, scene_buffers: Some(scene_buffers_gpu) };
        proof {
            assert(setup.writes@ =~= seq![
                DescriptorWrite {
                    dst_set: 0,
                    dst_binding: 0,
                    descriptor_count: 1,
                    descriptor_type: DescriptorType::StorageImage,
                    resource: WriteResource::Image { layout: ImageLayout::General },
                },
                DescriptorWrite {
                    dst_set: 0,
                    dst_binding: 1,
                    descriptor_count: 1,
                    descriptor_type: DescriptorType::StorageBuffer,
                    resource: WriteResource::Buffer { byte_size: triangles_size },
                },
                DescriptorWrite {
                    dst_set: 0,
                    dst_binding: 2,
                    descriptor_count: 1,
                    descriptor_type: DescriptorType::StorageBuffer,
                    resource: WriteResource::Buffer { byte_size: models_size },
                },
                DescriptorWrite {
                    dst_set: 0,
                    dst_binding: 3,
                    descriptor_count: 1,
                    descriptor_type: DescriptorType::StorageBuffer,
                    resource: WriteResource::Buffer { byte_size: materials_size },
                },
            ]);
        }
        setup
    }

    fn create_pipeline_layout(&mut self) {
        let layout = copy_layout(&self.base_attributes.descriptors.draw_image_descriptor_layout);
        let mut set_layouts: Vec<DescriptorSetLayout> = Vec::new();
        set_layouts.push(layout);
        self.base_attributes.pipeline_layout = PipelineLayoutPlan { set_layouts };
    }

    fn create_compute_pipeline(&mut self) {
        self.base_attributes.pipeline = ComputePipelinePlan {
            shader: ShaderKind::Raytracing,
            entry_point_main: true,
        };
    }

    fn run(&self, draw_extent: &Extent2D, cmds: &mut Vec<RenderStep>) {
        let set_id = self.base_attributes.descriptors.draw_image_descriptors.id;
        cmds.push(RenderStep::BindComputePipeline { shader: ShaderKind::Raytracing });
        cmds.push(RenderStep::BindDescriptorSets { first_set: 0, set_id });
        cmds.push(RenderStep::Dispatch {
            x: draw_extent.width / crate::pipelines::WORKGROUP_DIM,
            y: draw_extent.height / crate::pipelines::WORKGROUP_DIM,
            z: 1,
        });
        assert(cmds@ =~= old(cmds)@ + pipeline_run_steps(
            ShaderKind::Raytracing,
            set_id,
            *draw_extent,
        ));
    }

    fn clear(&mut self) {
        self.base_attributes = PipelineAttributes {
            descriptors: Descriptors {
                global_allocator_descriptor: DescriptorAllocator::new(),
                draw_image_descriptors: DescriptorSet { id: 0, binding_count: 0 },
                draw_image_descriptor_layout: DescriptorSetLayout { bindings: Vec::new() },
            },
            pipeline: ComputePipelinePlan {
                shader: ShaderKind::Raytracing,
                entry_point_main: false,
            },
            pipeline_layout: PipelineLayoutPlan { set_layouts: Vec::new() },
        };
    }
}

/// The shader file of the raytracing pipeline, relative to the project
/// root.
pub fn raytracing_shader_path() -> (r: String)
    ensures
        r@ == "/src/shaders/raytracing.spv"@,
{
    "/src/shaders/raytracing.spv".to_string()
}

} // verus!
