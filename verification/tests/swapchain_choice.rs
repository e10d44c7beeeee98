use rulkan::image_ops::{Extent2D, ImageFormat};
use rulkan::params::AppParameters;
use rulkan::swapchain::{
    choose_present_mode, choose_surface_extent, choose_swapchain_format, desired_image_count,
    init_swapchain, ColorSpace, PresentMode, PreTransform, SurfaceCapabilities, SurfaceFormat,
    SwapChainSupportDetails,
};

fn caps(min: u32, max: u32, extent: Extent2D) -> SurfaceCapabilities {
    SurfaceCapabilities {
        min_image_count: min,
        max_image_count: max,
        current_extent: extent,
        supports_identity_transform: true,
    }
}

#[test]
fn preferred_format_is_picked_when_offered() {
    let formats = vec![
        SurfaceFormat { format: ImageFormat::Other, color_space: ColorSpace::SrgbNonlinear },
        SurfaceFormat { format: ImageFormat::B8G8R8A8Unorm, color_space: ColorSpace::SrgbNonlinear },
    ];
    let chosen = choose_swapchain_format(&formats);
    assert_eq!(chosen.format, ImageFormat::B8G8R8A8Unorm);
    assert_eq!(chosen.color_space, ColorSpace::SrgbNonlinear);
}

#[test]
fn first_format_is_fallback() {
    let formats = vec![
        SurfaceFormat { format: ImageFormat::Other, color_space: ColorSpace::Other },
        SurfaceFormat { format: ImageFormat::R16G16B16A16Sfloat, color_space: ColorSpace::Other },
    ];
    let chosen = choose_swapchain_format(&formats);
    assert_eq!(chosen, formats[0]);
}

#[test]
fn present_mode_is_always_fifo() {
    let modes = vec![PresentMode::Mailbox, PresentMode::Immediate];
    assert_eq!(choose_present_mode(&modes), PresentMode::Fifo);
    let modes = vec![PresentMode::Fifo];
    assert_eq!(choose_present_mode(&modes), PresentMode::Fifo);
}

#[test]
fn image_count_is_min_plus_one_capped_by_max() {
    let e = Extent2D { width: 800, height: 600 };
    assert_eq!(desired_image_count(&caps(2, 0, e)), 3);
    assert_eq!(desired_image_count(&caps(2, 3, e)), 3);
    assert_eq!(desired_image_count(&caps(3, 3, e)), 3);
    assert_eq!(desired_image_count(&caps(2, 8, e)), 3);
}

#[test]
fn surface_extent_follows_the_surface_where_it_reports_one() {
    let params = AppParameters::default();
    let fixed = caps(2, 0, Extent2D { width: 800, height: 600 });
    assert_eq!(
        choose_surface_extent(&fixed, &params),
        Extent2D { width: 800, height: 600 }
    );
}

#[test]
fn surface_extent_uses_window_when_unbounded() {
    let params = AppParameters::default();
    let unbounded = caps(2, 0, Extent2D { width: u32::MAX, height: 0 });
    assert_eq!(
        choose_surface_extent(&unbounded, &params),
        Extent2D { width: 1280, height: 720 }
    );
}

#[test]
fn swapchain_plan_combines_all_choices() {
    let params = AppParameters::default();
    let support = SwapChainSupportDetails {
        capabilities: caps(2, 0, Extent2D { width: 1024, height: 768 }),
        formats: vec![SurfaceFormat {
            format: ImageFormat::B8G8R8A8Unorm,
            color_space: ColorSpace::SrgbNonlinear,
        }],
        present_modes: vec![PresentMode::Mailbox, PresentMode::Fifo],
    };
    assert!(support.is_complete());
    let plan = init_swapchain(&params, &support);
    assert_eq!(plan.min_image_count, 3);
    assert_eq!(plan.format.format, ImageFormat::B8G8R8A8Unorm);
    assert_eq!(plan.extent, Extent2D { width: 1024, height: 768 });
    assert_eq!(plan.present_mode, PresentMode::Fifo);
    assert_eq!(plan.pre_transform, PreTransform::Identity);
    assert!(plan.transfer_dst && plan.color_attachment);
    assert!(plan.sharing_exclusive && plan.composite_alpha_opaque && plan.clipped);
    assert_eq!(plan.image_array_layers, 1);
}
