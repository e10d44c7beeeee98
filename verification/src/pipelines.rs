//! Dispatchable compute pipelines.
//!
//! Each pipeline owns a descriptor set, a descriptor-set layout, a pipeline
//! layout and a shader; the lifecycle is fixed: descriptors first, then the
//! pipeline layout (it depends on the descriptor-set layout), then the
//! pipeline itself.  Running a pipeline binds it and its set and launches a
//! workgroup grid sized by dividing the draw extent by the workgroup side,
//! truncating extents that are not a multiple of it.

use vstd::prelude::*;

use crate::commands::{RenderStep, ShaderKind};
use crate::descriptors::{
    DescriptorAllocator, DescriptorSet, DescriptorSetLayout, DescriptorWrite, LayoutBinding,
};
use crate::image_ops::Extent2D;
use crate::scene::{Scene, SceneBuffers};

verus! {

/// Side length of one compute workgroup, in pixels.
pub const WORKGROUP_DIM: u32 = 16;

/// How many workgroups a dispatch launches along each axis for a draw
/// extent: the extent divided by the workgroup side, rounded down.
pub fn workgroup_counts(draw_extent: &Extent2D) -> (r: (u32, u32))
    ensures
        r.0 == draw_extent.width / WORKGROUP_DIM,
        r.1 == draw_extent.height / WORKGROUP_DIM,
{
    (draw_extent.width / WORKGROUP_DIM, draw_extent.height / WORKGROUP_DIM)
}

// ---------------------------------------------------------------------------
// Shader module words
// ---------------------------------------------------------------------------

/// The SPIR-V magic number, as the first word of a valid module.
pub const SPIRV_MAGIC: u32 = 0x0723_0203;

/// The magic number as it appears when the module was written with the
/// opposite byte order.
pub const SPIRV_MAGIC_SWAPPED: u32 = 0x0302_2307;

/// Why a byte stream is not a shader module.
#[derive(Clone, Copy, PartialEq, Eq, Structural, Debug)]
pub enum ShaderParseError {
    /// The input length is not divisible by the word size.
    NotWordAligned,
    /// The input does not start with the SPIR-V magic number.
    MissingMagicNumber,
}

/// The word assembled from four little-endian bytes.
pub open spec fn word_from_le(b0: u8, b1: u8, b2: u8, b3: u8) -> u32 {
    (b0 + b1 * 0x100 + b2 * 0x10000 + b3 * 0x1000000) as u32
}

/// A word with its four bytes reversed.
pub open spec fn word_swap_bytes(x: u32) -> u32 {
    ((x % 0x100) * 0x1000000 + ((x / 0x100) % 0x100) * 0x10000 + ((x / 0x10000) % 0x100) * 0x100
        + x / 0x1000000) as u32
}

/// The words of a byte stream, read little-endian.
pub open spec fn le_words(bytes: Seq<u8>) -> Seq<u32> {
    Seq::new(bytes.len() / 4, |i: int| word_from_le(
        bytes[4 * i],
        bytes[4 * i + 1],
        bytes[4 * i + 2],
        bytes[4 * i + 3],
    ))
}

/// The words of a word-aligned byte stream, with the byte order corrected:
/// a stream that opens with the byte-swapped magic number is swapped whole.
pub open spec fn spirv_decode(bytes: Seq<u8>) -> Seq<u32> {
    let words = le_words(bytes);
    if words.len() > 0 && words[0] == SPIRV_MAGIC_SWAPPED {
        words.map_values(|w: u32| word_swap_bytes(w))
    } else {
        words
    }
}

/// A word-aligned, non-empty stream that opens (in either byte order) with
/// the magic number.
pub open spec fn spirv_valid(bytes: Seq<u8>) -> bool {
    &&& bytes.len() % 4 == 0
    &&& spirv_decode(bytes).len() > 0
    &&& spirv_decode(bytes)[0] == SPIRV_MAGIC
}

/// Helpers around shader modules.
pub struct PipelineUtils;

impl PipelineUtils {
    /// Turns the raw bytes of a shader file into SPIR-V words: the length
    /// must be a whole number of words, the first word must be the magic
    /// number, and a module written in the opposite byte order is swapped
    /// whole.
    pub fn parse_spirv(bytes: &Vec<u8>) -> (r: Result<Vec<u32>, ShaderParseError>)
        ensures
            bytes@.len() % 4 != 0 ==> r == Err::<Vec<u32>, ShaderParseError>(
                ShaderParseError::NotWordAligned,
            ),
            bytes@.len() % 4 == 0 && !spirv_valid(bytes@) ==> r == Err::<
                Vec<u32>,
                ShaderParseError,
            >(ShaderParseError::MissingMagicNumber),
            spirv_valid(bytes@) ==> (r matches Ok(words) && words@ == spirv_decode(bytes@)),
    {
        let n = bytes.len();
        if n % 4 != 0 {
            return Err(ShaderParseError::NotWordAligned);
        }
        let word_count = n / 4;
        let mut words: Vec<u32> = Vec::new();
        let mut i: usize = 0;
        while i < word_count
            invariant
                n == bytes@.len(),
                n % 4 == 0,
                word_count == n / 4,
                i <= word_count,
                words@.len() == i,
                forall|j: int| 0 <= j < i ==> #[trigger] words@[j] == le_words(bytes@)[j],
            decreases word_count - i,
        {
            let b0 = bytes[4 * i];
            let b1 = bytes[4 * i + 1];
            let b2 = bytes[4 * i + 2];
            let b3 = bytes[4 * i + 3];
            let w: u32 =
                (b0 as u32) + (b1 as u32) * 0x100 + (b2 as u32) * 0x10000 + (b3 as u32) * 0x1000000;
            words.push(w);
            i = i + 1;
        }
        assert(words@ =~= le_words(bytes@));

        if words.len() > 0 && words[0] == SPIRV_MAGIC_SWAPPED {
            let mut swapped: Vec<u32> = Vec::new();
            let mut k: usize = 0;
            while k < word_count
                invariant
                    word_count == words@.len(),
                    k <= word_count,
                    swapped@.len() == k,
                    forall|j: int| 0 <= j < k
                        ==> #[trigger] swapped@[j] == word_swap_bytes(words@[j]),
                decreases word_count - k,
            {
                let x = words[k];
                let y: u32 = (x % 0x100) * 0x1000000 + ((x / 0x100) % 0x100) * 0x10000
                    + ((x / 0x10000) % 0x100) * 0x100 + x / 0x1000000;
                swapped.push(y);
                k = k + 1;
            }
            assert(swapped@ =~= words@.map_values(|w: u32| word_swap_bytes(w)));
            words = swapped;
        }
        assert(words@ == spirv_decode(bytes@));

        if words.len() == 0 {
            return Err(ShaderParseError::MissingMagicNumber);
        }
        if words[0] != SPIRV_MAGIC {
            return Err(ShaderParseError::MissingMagicNumber);
        }
        Ok(words)
    }
}

// ---------------------------------------------------------------------------
// Pipeline attributes
// ---------------------------------------------------------------------------

/// The descriptor resources one pipeline owns.
pub struct Descriptors {
    pub global_allocator_descriptor: DescriptorAllocator,
    pub draw_image_descriptors: DescriptorSet,
    pub draw_image_descriptor_layout: DescriptorSetLayout,
}

/// The set layouts a pipeline layout is built over.
pub struct PipelineLayoutPlan {
    pub set_layouts: Vec<DescriptorSetLayout>,
}

/// The shader a compute pipeline is built from.  `entry_point_main` records
/// that the pipeline was created with entry point `main`.
#[derive(Clone, Copy, PartialEq, Eq, Structural, Debug)]
pub struct ComputePipelinePlan {
    pub shader: ShaderKind,
    pub entry_point_main: bool,
}

/// Everything one pipeline builds during initialization, torn down as a
/// unit.
pub struct PipelineAttributes {
    pub descriptors: Descriptors,
    pub pipeline: ComputePipelinePlan,
    pub pipeline_layout: PipelineLayoutPlan,
}

/// A pipeline of kind `shader` that holds nothing: no pool, no layout, no
/// set, no pipeline.
pub open spec fn attributes_cleared(attrs: PipelineAttributes, shader: ShaderKind) -> bool {
    &&& attrs.descriptors.global_allocator_descriptor.max_sets == 0
    &&& attrs.descriptors.global_allocator_descriptor.sets_allocated == 0
    &&& attrs.descriptors.global_allocator_descriptor.pool_sizes@.len() == 0
    &&& attrs.descriptors.draw_image_descriptors == (DescriptorSet { id: 0, binding_count: 0 })
    &&& attrs.descriptors.draw_image_descriptor_layout.bindings@.len() == 0
    &&& attrs.pipeline == (ComputePipelinePlan { shader: shader, entry_point_main: false })
    &&& attrs.pipeline_layout.set_layouts@.len() == 0
}

/// Copies a built layout so it can also stand in a pipeline-layout plan.
pub fn copy_layout(src: &DescriptorSetLayout) -> (r: DescriptorSetLayout)
    ensures
        r.bindings@ == src.bindings@,
{
    let mut bindings: Vec<LayoutBinding> = Vec::new();
    let n = src.bindings.len();
    let mut i: usize = 0;
    while i < n
        invariant
            n == src.bindings@.len(),
            i <= n,
            bindings@ == src.bindings@.subrange(0, i as int),
        decreases n - i,
    {
        bindings.push(src.bindings[i]);
        i = i + 1;
    }
    assert(bindings@ =~= src.bindings@);
    DescriptorSetLayout { bindings }
}

/// What descriptor initialization hands back besides the state it stores:
/// the set writes to perform, and, where the pipeline reads the scene, the
/// upload plans of its buffers.
pub struct DescriptorSetup {
    pub writes: Vec<DescriptorWrite>,
    pub scene_buffers: Option<SceneBuffers>,
}

/// The run of any compute pipeline: bind it, bind its set, dispatch the
/// grid that covers the draw extent at one workgroup per
/// `WORKGROUP_DIM`-sided tile, truncating partial tiles.
pub open spec fn pipeline_run_steps(shader: ShaderKind, set_id: u32, extent: Extent2D) -> Seq<
    RenderStep,
> {
    seq![
        RenderStep::BindComputePipeline { shader: shader },
        RenderStep::BindDescriptorSets { first_set: 0, set_id: set_id },
        RenderStep::Dispatch {
            x: extent.width / WORKGROUP_DIM,
            y: extent.height / WORKGROUP_DIM,
            z: 1,
        },
    ]
}

// ---------------------------------------------------------------------------
// The polymorphic pipeline contract
// ---------------------------------------------------------------------------

/// One unit of GPU work with its own descriptors, layout, shader and
/// dispatch.  The lifecycle is fixed: `init_descriptors`, then
/// `create_pipeline_layout`, then `create_compute_pipeline`; `init` composes
/// them in that order.
pub trait ComputePipeline: Sized {
    /// The shader this pipeline runs.
    spec fn shader() -> ShaderKind;

    /// The pipeline's current attributes.
    spec fn attributes(&self) -> PipelineAttributes;

    /// The descriptor pool, layout and set have been built.
    spec fn descriptors_initialized(&self) -> bool;

    /// The pipeline layout has been built over the descriptor-set layout.
    spec fn layout_created(&self) -> bool;

    /// The compute pipeline itself has been built.
    spec fn pipeline_created(&self) -> bool;

    /// What a finished descriptor setup of this pipeline looks like for a
    /// given scene.
    spec fn setup_matches(scene: Scene, descriptors: Descriptors, setup: DescriptorSetup) -> bool;

    /// Read access to the attributes.
    fn get_attributes(&self) -> (r: &PipelineAttributes)
        ensures
            *r == self.attributes(),
    ;

    /// Builds the descriptor pool, the set layout, the set and its writes;
    /// a scene-reading pipeline also plans its buffer uploads here.
    fn init_descriptors(&mut self, scene: &Scene) -> (r: DescriptorSetup)
        requires
            scene.wf(),
        ensures
            final(self).descriptors_initialized(),
            Self::setup_matches(*scene, final(self).attributes().descriptors, r),
            final(self).attributes().pipeline == old(self).attributes().pipeline,
    ;

    /// Builds the pipeline layout over the one descriptor-set layout.
    fn create_pipeline_layout(&mut self)
        requires
            old(self).descriptors_initialized(),
        ensures
            final(self).descriptors_initialized(),
            final(self).layout_created(),
            final(self).attributes().descriptors == old(self).attributes().descriptors,
            final(self).attributes().pipeline == old(self).attributes().pipeline,
            final(self).attributes().pipeline_layout.set_layouts@.len() == 1,
            final(self).attributes().pipeline_layout.set_layouts@[0].bindings@ == old(
                self,
            ).attributes().descriptors.draw_image_descriptor_layout.bindings@,
    ;

    /// Builds the compute pipeline from its shader, entry point `main`.
    fn create_compute_pipeline(&mut self)
        requires
            old(self).descriptors_initialized(),
            old(self).layout_created(),
        ensures
            final(self).descriptors_initialized(),
            final(self).layout_created(),
            final(self).pipeline_created(),
            final(self).attributes().descriptors == old(self).attributes().descriptors,
            final(self).attributes().pipeline_layout.set_layouts@ == old(
                self,
            ).attributes().pipeline_layout.set_layouts@,
            final(self).attributes().pipeline == (ComputePipelinePlan {
                shader: Self::shader(),
                entry_point_main: true,
            }),
    ;

    /// Records this pipeline's work: bind, bind set, dispatch the grid
    /// covering `draw_extent`.
    fn run(&self, draw_extent: &Extent2D, cmds: &mut Vec<RenderStep>)
        requires
            self.descriptors_initialized(),
            self.pipeline_created(),
        ensures
            final(cmds)@ == old(cmds)@ + pipeline_run_steps(
                Self::shader(),
                self.attributes().descriptors.draw_image_descriptors.id,
                *draw_extent,
            ),
    ;

    /// Returns the pipeline to its empty state; the driver-side teardown
    /// mirrors it.
    fn clear(&mut self)
        ensures
            attributes_cleared(final(self).attributes(), Self::shader()),
    ;

    /// The whole initialization, in the one valid order: descriptors, then
    /// pipeline layout, then pipeline.
    fn init(&mut self, scene: &Scene) -> (r: DescriptorSetup)
        requires
            scene.wf(),
        ensures
            final(self).descriptors_initialized(),
            final(self).layout_created(),
            final(self).pipeline_created(),
            Self::setup_matches(*scene, final(self).attributes().descriptors, r),
            final(self).attributes().pipeline == (ComputePipelinePlan {
                shader: Self::shader(),
                entry_point_main: true,
            }),
            final(self).attributes().pipeline_layout.set_layouts@.len() == 1,
    {
        let setup = self.init_descriptors(scene);
        self.create_pipeline_layout();
        self.create_compute_pipeline();
        setup
    }
}

} // verus!
