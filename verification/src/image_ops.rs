//! Image-level operations around the offscreen draw target: the creation
//! parameters of the draw image, the full-image clear range, and the blit
//! that copies the draw image onto a presentable image.

use vstd::prelude::*;

use crate::barriers::{ImageAspect, SubresourceRange, REMAINING};
use crate::params::AppParameters;

verus! {

/// A two-dimensional pixel extent.
#[derive(Clone, Copy, PartialEq, Eq, Structural, Debug)]
pub struct Extent2D {
    pub width: u32,
    pub height: u32,
}

/// A three-dimensional pixel extent.
#[derive(Clone, Copy, PartialEq, Eq, Structural, Debug)]
pub struct Extent3D {
    pub width: u32,
    pub height: u32,
    pub depth: u32,
}

/// A signed three-dimensional offset, as blit corners are expressed.
#[derive(Clone, Copy, PartialEq, Eq, Structural, Debug)]
pub struct Offset3D {
    pub x: i32,
    pub y: i32,
    pub z: i32,
}

/// Pixel format of an image.
#[derive(Clone, Copy, PartialEq, Eq, Structural, Debug)]
pub enum ImageFormat {
    R16G16B16A16Sfloat,
    B8G8R8A8Unorm,
    Other,
}

/// What an image may be used for.
#[derive(Clone, Copy, PartialEq, Eq, Structural, Debug)]
pub struct ImageUsage {
    pub transfer_src: bool,
    pub transfer_dst: bool,
    pub storage: bool,
    pub color_attachment: bool,
}

/// The mip level and array layers one blit touches.
#[derive(Clone, Copy, PartialEq, Eq, Structural, Debug)]
pub struct SubresourceLayers {
    pub aspect_mask: ImageAspect,
    pub mip_level: u32,
    pub base_array_layer: u32,
    pub layer_count: u32,
}

/// One blit region: a source box and a destination box, each given by two
/// corner offsets.
#[derive(Clone, Copy, PartialEq, Eq, Structural, Debug)]
pub struct BlitRegion {
    pub src_offset_min: Offset3D,
    pub src_offset_max: Offset3D,
    pub dst_offset_min: Offset3D,
    pub dst_offset_max: Offset3D,
    pub src_subresource: SubresourceLayers,
    pub dst_subresource: SubresourceLayers,
}

/// The scaling filter of a blit.
#[derive(Clone, Copy, PartialEq, Eq, Structural, Debug)]
pub enum BlitFilter {
    Linear,
}

/// Everything one image-to-image copy needs besides the two image handles:
/// the expected layouts, the filter and the single region.
#[derive(Clone, Copy, PartialEq, Eq, Structural, Debug)]
pub struct BlitPlan {
    pub region: BlitRegion,
    pub filter: BlitFilter,
}

/// The layers a blit covers: color aspect, mip 0, one layer.
pub open spec fn blit_layers() -> SubresourceLayers {
    SubresourceLayers {
        aspect_mask: ImageAspect::Color,
        mip_level: 0,
        base_array_layer: 0,
        layer_count: 1,
    }
}

/// The blit that stretches the whole source extent onto the whole
/// destination extent.
pub open spec fn blit_plan(size_src: Extent2D, size_dst: Extent2D) -> BlitPlan {
    BlitPlan {
        region: BlitRegion {
            src_offset_min: Offset3D { x: 0, y: 0, z: 0 },
            src_offset_max: Offset3D {
                x: size_src.width as i32,
                y: size_src.height as i32,
                z: 1,
            },
            dst_offset_min: Offset3D { x: 0, y: 0, z: 0 },
            dst_offset_max: Offset3D {
                x: size_dst.width as i32,
                y: size_dst.height as i32,
                z: 1,
            },
            src_subresource: blit_layers(),
            dst_subresource: blit_layers(),
        },
        filter: BlitFilter::Linear,
    }
}

/// An extent small enough that its coordinates survive the signed corner
/// representation.
pub open spec fn extent_fits_signed(e: Extent2D) -> bool {
    e.width <= i32::MAX && e.height <= i32::MAX
}

/// Builds the copy of one whole image onto another, linearly filtered.
pub fn copy_image_to_image(size_src: &Extent2D, size_dst: &Extent2D) -> (r: BlitPlan)
    requires
        extent_fits_signed(*size_src),
        extent_fits_signed(*size_dst),
    ensures
        r == blit_plan(*size_src, *size_dst),
{
    let layers = SubresourceLayers {
        aspect_mask: ImageAspect::Color,
        mip_level: 0,
        base_array_layer: 0,
        layer_count: 1,
    };
    BlitPlan {
        region: BlitRegion {
            src_offset_min: Offset3D { x: 0, y: 0, z: 0 },
            src_offset_max: Offset3D {
                x: size_src.width as i32,
                y: size_src.height as i32,
                z: 1,
            },
            dst_offset_min: Offset3D { x: 0, y: 0, z: 0 },
            dst_offset_max: Offset3D {
                x: size_dst.width as i32,
                y: size_dst.height as i32,
                z: 1,
            },
            src_subresource: layers,
            dst_subresource: layers,
        },
        filter: BlitFilter::Linear,
    }
}

/// Creation parameters of the persistent draw target.
#[derive(Clone, Copy, PartialEq, Eq, Structural, Debug)]
pub struct ImageCreatePlan {
    pub extent: Extent3D,
    pub format: ImageFormat,
    pub usage: ImageUsage,
    pub mip_levels: u32,
    pub array_layers: u32,
    pub samples: u32,
    pub device_local: bool,
}

/// The draw image matches the window, uses a 16-bit float color format, and
/// can be written by compute, copied both ways and rendered to; it lives in
/// GPU-local memory.
pub open spec fn draw_image_plan(width: u32, height: u32) -> ImageCreatePlan {
    ImageCreatePlan {
        extent: Extent3D { width: width, height: height, depth: 1 },
        format: ImageFormat::R16G16B16A16Sfloat,
        usage: ImageUsage {
            transfer_src: true,
            transfer_dst: true,
            storage: true,
            color_attachment: true,
        },
        mip_levels: 1,
        array_layers: 1,
        samples: 1,
        device_local: true,
    }
}

/// Derives the draw-image creation parameters from the window size.
pub fn init_images(app_params: &AppParameters) -> (r: ImageCreatePlan)
    requires
        app_params.wf(),
    ensures
        r == draw_image_plan(app_params.window_width as u32, app_params.window_height as u32),
{
    ImageCreatePlan {
        extent: Extent3D {
            width: app_params.window_width as u32,
            height: app_params.window_height as u32,
            depth: 1,
        },
        format: ImageFormat::R16G16B16A16Sfloat,
        usage: ImageUsage {
            transfer_src: true,
            transfer_dst: true,
            storage: true,
            color_attachment: true,
        },
        mip_levels: 1,
        array_layers: 1,
        samples: 1,
        device_local: true,
    }
}

/// The range a full-image color clear covers: every mip level and layer.
pub open spec fn clear_range() -> SubresourceRange {
    SubresourceRange {
        aspect_mask: ImageAspect::Color,
        base_mip_level: 0,
        level_count: REMAINING,
        base_array_layer: 0,
        layer_count: REMAINING,
    }
}

/// Builds the subresource range of a full-image color clear.
pub fn full_color_clear_range() -> (r: SubresourceRange)
    ensures
        r == clear_range(),
{
    SubresourceRange {
        aspect_mask: ImageAspect::Color,
        base_mip_level: 0,
        level_count: REMAINING,
        base_array_layer: 0,
        layer_count: REMAINING,
    }
}

} // verus!
