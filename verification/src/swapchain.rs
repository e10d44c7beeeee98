//! Swapchain configuration: picking the surface format, present mode,
//! image count, extent and transform from what the surface reports.

use vstd::prelude::*;

use crate::image_ops::{Extent2D, ImageFormat};
use crate::params::AppParameters;

verus! {

/// The color space of a surface format.
#[derive(Clone, Copy, PartialEq, Eq, Structural, Debug)]
pub enum ColorSpace {
    SrgbNonlinear,
    Other,
}

/// One surface format the device offers.
#[derive(Clone, Copy, PartialEq, Eq, Structural, Debug)]
pub struct SurfaceFormat {
    pub format: ImageFormat,
    pub color_space: ColorSpace,
}

/// A way of timing presentation.
#[derive(Clone, Copy, PartialEq, Eq, Structural, Debug)]
pub enum PresentMode {
    Fifo,
    Mailbox,
    Immediate,
    Other,
}

/// How the surface is rotated before presentation.
#[derive(Clone, Copy, PartialEq, Eq, Structural, Debug)]
pub enum PreTransform {
    Identity,
    Current,
}

/// What the surface reports about itself.
#[derive(Clone, Copy, PartialEq, Eq, Structural, Debug)]
pub struct SurfaceCapabilities {
    pub min_image_count: u32,
    /// 0 means unbounded.
    pub max_image_count: u32,
    /// Width `u32::MAX` means the surface takes its size from the
    /// swapchain.
    pub current_extent: Extent2D,
    pub supports_identity_transform: bool,
}

/// Everything queried from the surface before building a swapchain.
pub struct SwapChainSupportDetails {
    pub capabilities: SurfaceCapabilities,
    pub formats: Vec<SurfaceFormat>,
    pub present_modes: Vec<PresentMode>,
}

impl SwapChainSupportDetails {
    /// The surface offers at least one format and one present mode.
    pub open spec fn spec_complete(&self) -> bool {
        self.formats@.len() > 0 && self.present_modes@.len() > 0
    }

    /// Runtime test of the same condition.
    pub fn is_complete(&self) -> (r: bool)
        ensures
            r == self.spec_complete(),
    {
        self.formats.len() > 0 && self.present_modes.len() > 0
    }
}

/// The format this renderer prefers: 8-bit BGRA in the nonlinear sRGB
/// color space.
pub open spec fn preferred_format(f: SurfaceFormat) -> bool {
    f.format == ImageFormat::B8G8R8A8Unorm && f.color_space == ColorSpace::SrgbNonlinear
}

/// Picks the first preferred format, or the first offered one where none
/// is preferred.
pub fn choose_swapchain_format(available_formats: &Vec<SurfaceFormat>) -> (r: SurfaceFormat)
    requires
        available_formats@.len() > 0,
    ensures
        (exists|i: int| 0 <= i < available_formats@.len() && preferred_format(
            #[trigger] available_formats@[i],
        )) ==> exists|i: int|
            {
                &&& 0 <= i < available_formats@.len()
                &&& preferred_format(#[trigger] available_formats@[i])
                &&& r == available_formats@[i]
                &&& forall|j: int| 0 <= j < i ==> !preferred_format(#[trigger] available_formats@[j])
            },
        !(exists|i: int| 0 <= i < available_formats@.len() && preferred_format(
            #[trigger] available_formats@[i],
        )) ==> r == available_formats@[0],
{
    let n = available_formats.len();
    let mut i: usize = 0;
    while i < n
        invariant
            n == available_formats@.len(),
            i <= n,
            forall|j: int| 0 <= j < i ==> !preferred_format(#[trigger] available_formats@[j]),
        decreases n - i,
    {
        let f = available_formats[i];
        if matches!(f.format, ImageFormat::B8G8R8A8Unorm)
            && matches!(f.color_space, ColorSpace::SrgbNonlinear) {
            assert(preferred_format(available_formats@[i as int]));
            return f;
        }
        i = i + 1;
    }
    available_formats[0]
}

/// Picks the present mode: first-in-first-out, which every surface
/// supports and which this renderer asks for in any case.
pub fn choose_present_mode(available_present_modes: &Vec<PresentMode>) -> (r: PresentMode)
    ensures
        r == PresentMode::Fifo,
{
    let n = available_present_modes.len();
    let mut i: usize = 0;
    while i < n
        invariant
            n == available_present_modes@.len(),
            i <= n,
        decreases n - i,
    {
        let m = available_present_modes[i];
        if matches!(m, PresentMode::Fifo) {
            return m;
        }
        i = i + 1;
    }
    PresentMode::Fifo
}

/// One more image than the surface's minimum, capped by its maximum where
/// one is set.
pub open spec fn spec_desired_image_count(caps: SurfaceCapabilities) -> int {
    if caps.max_image_count > 0 && caps.min_image_count + 1 > caps.max_image_count {
        caps.max_image_count as int
    } else {
        caps.min_image_count + 1
    }
}

/// Computes the image count to request.
pub fn desired_image_count(caps: &SurfaceCapabilities) -> (r: u32)
    requires
        caps.min_image_count < u32::MAX,
    ensures
        r == spec_desired_image_count(*caps),
{
    let mut desired: u32 = caps.min_image_count + 1;
    if caps.max_image_count > 0 && desired > caps.max_image_count {
        desired = caps.max_image_count;
    }
    desired
}

/// The surface extent: the surface's own where it reports one, else the
/// window size.
pub open spec fn spec_surface_extent(caps: SurfaceCapabilities, params: AppParameters) -> Extent2D {
    if caps.current_extent.width == u32::MAX {
        Extent2D { width: params.window_width as u32, height: params.window_height as u32 }
    } else {
        caps.current_extent
    }
}

/// Chooses the surface extent.
pub fn choose_surface_extent(caps: &SurfaceCapabilities, app_params: &AppParameters) -> (r:
    Extent2D)
    requires
        app_params.wf(),
    ensures
        r == spec_surface_extent(*caps, *app_params),
{
    if caps.current_extent.width == u32::MAX {
        Extent2D {
            width: app_params.window_width as u32,
            height: app_params.window_height as u32,
        }
    } else {
        caps.current_extent
    }
}

/// Identity where supported, else whatever the surface currently applies.
pub fn choose_pre_transform(caps: &SurfaceCapabilities) -> (r: PreTransform)
    ensures
        r == (if caps.supports_identity_transform {
            PreTransform::Identity
        } else {
            PreTransform::Current
        }),
{
    if caps.supports_identity_transform {
        PreTransform::Identity
    } else {
        PreTransform::Current
    }
}

/// The full creation request of the swapchain.
#[derive(Clone, Copy, PartialEq, Eq, Structural, Debug)]
pub struct SwapchainCreatePlan {
    pub min_image_count: u32,
    pub format: SurfaceFormat,
    pub extent: Extent2D,
    pub transfer_dst: bool,
    pub color_attachment: bool,
    pub sharing_exclusive: bool,
    pub pre_transform: PreTransform,
    pub composite_alpha_opaque: bool,
    pub present_mode: PresentMode,
    pub clipped: bool,
    pub image_array_layers: u32,
}

/// Assembles the swapchain creation request from what the surface
/// supports: chosen format, first-in-first-out presentation, one image
/// above the minimum (capped), destination-copy and color-attachment
/// usage, exclusive sharing, opaque compositing, one layer, clipped.
pub fn init_swapchain(app_params: &AppParameters, support: &SwapChainSupportDetails) -> (r:
    SwapchainCreatePlan)
    requires
        app_params.wf(),
        support.spec_complete(),
        support.capabilities.min_image_count < u32::MAX,
    ensures
        r.min_image_count == spec_desired_image_count(support.capabilities),
        (exists|i: int| 0 <= i < support.formats@.len() && preferred_format(
            #[trigger] support.formats@[i],
        )) ==> preferred_format(r.format),
        !(exists|i: int| 0 <= i < support.formats@.len() && preferred_format(
            #[trigger] support.formats@[i],
        )) ==> r.format == support.formats@[0],
        r.extent == spec_surface_extent(support.capabilities, *app_params),
        r.transfer_dst && r.color_attachment && r.sharing_exclusive && r.composite_alpha_opaque
            && r.clipped,
        r.present_mode == PresentMode::Fifo,
        r.pre_transform == (if support.capabilities.supports_identity_transform {
            PreTransform::Identity
        } else {
            PreTransform::Current
        }),
        r.image_array_layers == 1,
{
    let desired = desired_image_count(&support.capabilities);
    let extent = choose_surface_extent(&support.capabilities, app_params);
    let pre_transform = choose_pre_transform(&support.capabilities);
    let format = choose_swapchain_format(&support.formats);
    let present_mode = choose_present_mode(&support.present_modes);
    SwapchainCreatePlan {
        min_image_count: desired,
        format,
        extent,
        transfer_dst: true,
        color_attachment: true,
        sharing_exclusive: true,
        pre_transform,
        composite_alpha_opaque: true,
        present_mode,
        clipped: true,
        image_array_layers: 1,
    }
}

} // verus!
