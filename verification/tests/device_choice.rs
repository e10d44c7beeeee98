use rulkan::devices::{
    find_queue_families, init_physical_device_and_queue_families, is_device_suitable, DeviceInfo,
    QueueFamilyProps,
};
use rulkan::image_ops::Extent2D;
use rulkan::support::check_device_extension_support;
use rulkan::swapchain::{
    ColorSpace, PresentMode, SurfaceCapabilities, SurfaceFormat, SwapChainSupportDetails,
};
use rulkan::image_ops::ImageFormat;

fn family(graphics: bool, present: bool) -> QueueFamilyProps {
    QueueFamilyProps { supports_graphics: graphics, supports_present: present }
}

fn complete_support() -> SwapChainSupportDetails {
    SwapChainSupportDetails {
        capabilities: SurfaceCapabilities {
            min_image_count: 2,
            max_image_count: 0,
            current_extent: Extent2D { width: 800, height: 600 },
            supports_identity_transform: true,
        },
        formats: vec![SurfaceFormat {
            format: ImageFormat::B8G8R8A8Unorm,
            color_space: ColorSpace::SrgbNonlinear,
        }],
        present_modes: vec![PresentMode::Fifo],
    }
}

#[test]
fn first_family_supporting_both_roles_is_chosen() {
    let families = vec![family(true, false), family(false, true), family(true, true)];
    let indices = find_queue_families(&families);
    assert!(indices.is_complete());
    assert_eq!(indices.graphics_family, Some(2));
    assert_eq!(indices.present_family, Some(2));
}

#[test]
fn shared_family_yields_one_unique_queue() {
    let families = vec![family(true, true)];
    let indices = find_queue_families(&families);
    let unique = indices.get_unique_queues();
    assert_eq!(unique, vec![0]);
}

#[test]
fn device_without_suitable_family_is_rejected() {
    let info = DeviceInfo {
        families: vec![family(true, false), family(false, true)],
        extensions_supported: true,
        swapchain_support: complete_support(),
    };
    assert!(!is_device_suitable(&info));
}

#[test]
fn first_suitable_device_is_picked() {
    let unsuitable = DeviceInfo {
        families: vec![family(true, false)],
        extensions_supported: true,
        swapchain_support: complete_support(),
    };
    let suitable = DeviceInfo {
        families: vec![family(true, true)],
        extensions_supported: true,
        swapchain_support: complete_support(),
    };
    let devices = vec![unsuitable, suitable];
    assert_eq!(init_physical_device_and_queue_families(&devices), Some(1));
}

#[test]
fn no_suitable_device_yields_none() {
    let unsuitable = DeviceInfo {
        families: vec![family(false, false)],
        extensions_supported: false,
        swapchain_support: complete_support(),
    };
    assert_eq!(init_physical_device_and_queue_families(&vec![unsuitable]), None);
}

#[test]
fn extension_names_are_checked_by_content() {
    let required = vec![b"VK_KHR_swapchain".to_vec()];
    let available = vec![b"VK_KHR_surface".to_vec(), b"VK_KHR_swapchain".to_vec()];
    assert!(check_device_extension_support(&required, &available));
    let missing = vec![b"VK_KHR_surface".to_vec()];
    assert!(!check_device_extension_support(&required, &missing));
}
