use viewer_core::surface::{
    clamp_dimension, find_depth_format, lists_format, Extent, PresentMode, SurfaceCapabilities,
    SurfaceError, SurfaceFormat, SwapchainProperties, SwapchainSupportDetails,
    FORMAT_B8G8R8A8_UNORM, FORMAT_D24_UNORM_S8_UINT, FORMAT_D32_SFLOAT, FORMAT_D32_SFLOAT_S8_UINT,
};

fn caps(min: u32, max: u32) -> SurfaceCapabilities {
    SurfaceCapabilities {
        min_image_count: min,
        max_image_count: max,
        min_image_extent: Extent { width: 100, height: 50 },
        max_image_extent: Extent { width: 2000, height: 1000 },
    }
}

fn support(min: u32, max: u32) -> SwapchainSupportDetails {
    SwapchainSupportDetails {
        capabilities: caps(min, max),
        formats: vec![
            SurfaceFormat { format: 37, color_space: 0 },
            SurfaceFormat { format: 44, color_space: 7 },
        ],
        present_modes: vec![PresentMode::FifoRelaxed, PresentMode::Immediate],
    }
}

#[test]
fn clamp_keeps_brings_up_and_brings_down() {
    assert_eq!(clamp_dimension(5, 1, 10), 5);
    assert_eq!(clamp_dimension(0, 1, 10), 1);
    assert_eq!(clamp_dimension(11, 1, 10), 10);
    assert_eq!(clamp_dimension(1, 1, 10), 1);
    assert_eq!(clamp_dimension(10, 1, 10), 10);
    assert_eq!(clamp_dimension(7, 9, 3), 9);
    assert_eq!(clamp_dimension(20, 9, 3), 9);
}

#[test]
fn properties_fall_back_to_what_the_platform_lists() {
    let d = support(2, 0);
    let p = d.get_ideal_swapchain_properties(Extent { width: 3000, height: 10 }, true).unwrap();
    assert_eq!(
        p,
        SwapchainProperties {
            format: SurfaceFormat { format: 37, color_space: 0 },
            present_mode: PresentMode::FifoRelaxed,
            extent: Extent { width: 2000, height: 50 },
            image_count: 3,
        }
    );
    let p = d.get_ideal_swapchain_properties(Extent { width: 640, height: 480 }, false).unwrap();
    assert_eq!(p.present_mode, PresentMode::Immediate);
    assert_eq!(p.extent, Extent { width: 640, height: 480 });
}

#[test]
fn preferred_format_is_taken_where_listed() {
    let mut d = support(2, 0);
    d.formats.push(SurfaceFormat { format: FORMAT_B8G8R8A8_UNORM, color_space: 0 });
    assert_eq!(d.choose_swapchain_surface_format(), SurfaceFormat { format: 44, color_space: 0 });
    d.present_modes.push(PresentMode::Fifo);
    assert_eq!(d.choose_swapchain_surface_present_mode(true), PresentMode::Fifo);
    assert_eq!(d.choose_swapchain_surface_present_mode(false), PresentMode::Immediate);
}

#[test]
fn image_count_is_one_above_the_minimum_under_the_maximum() {
    assert_eq!(support(2, 0).choose_image_count(), 3);
    assert_eq!(support(2, 8).choose_image_count(), 3);
    assert_eq!(support(2, 2).choose_image_count(), 2);
    assert_eq!(support(u32::MAX, 0).choose_image_count(), u32::MAX);
    assert_eq!(support(0, 0).choose_image_count(), 1);
}

#[test]
fn each_error_has_its_input() {
    let d = support(2, 0);
    assert_eq!(
        d.get_ideal_swapchain_properties(Extent { width: 0, height: 10 }, true),
        Err(SurfaceError::ZeroArea)
    );
    assert_eq!(
        d.get_ideal_swapchain_properties(Extent { width: 10, height: 0 }, true),
        Err(SurfaceError::ZeroArea)
    );
    let mut none_left = support(2, 0);
    none_left.capabilities.min_image_extent = Extent { width: 0, height: 0 };
    none_left.capabilities.max_image_extent = Extent { width: 0, height: 0 };
    assert_eq!(
        none_left.get_ideal_swapchain_properties(Extent { width: 10, height: 10 }, true),
        Err(SurfaceError::ZeroArea)
    );
    let mut no_format = support(2, 0);
    no_format.formats.clear();
    assert_eq!(
        no_format.get_ideal_swapchain_properties(Extent { width: 10, height: 10 }, true),
        Err(SurfaceError::NoFormat)
    );
    let mut no_mode = support(2, 0);
    no_mode.present_modes.clear();
    assert_eq!(
        no_mode.get_ideal_swapchain_properties(Extent { width: 10, height: 10 }, true),
        Err(SurfaceError::NoPresentMode)
    );
    no_mode.formats.clear();
    assert_eq!(
        no_mode.get_ideal_swapchain_properties(Extent { width: 10, height: 10 }, true),
        Err(SurfaceError::NoFormat)
    );
}

#[test]
fn selecting_again_with_the_selected_extent_changes_nothing() {
    let d = support(3, 4);
    for request in [
        Extent { width: 1, height: 1 },
        Extent { width: 5000, height: 700 },
        Extent { width: 333, height: 5000 },
    ] {
        let first = d.get_ideal_swapchain_properties(request, true).unwrap();
        let again = d.get_ideal_swapchain_properties(first.extent, true).unwrap();
        assert_eq!(first, again);
        assert_eq!(first.image_count, 4);
    }
}

#[test]
fn depth_format_is_the_first_supported_candidate() {
    assert_eq!(find_depth_format(&vec![129, 130, 126]), Some(FORMAT_D32_SFLOAT));
    assert_eq!(find_depth_format(&vec![129, 130]), Some(FORMAT_D32_SFLOAT_S8_UINT));
    assert_eq!(find_depth_format(&vec![44, 129]), Some(FORMAT_D24_UNORM_S8_UINT));
    assert_eq!(find_depth_format(&vec![44]), None);
    assert_eq!(find_depth_format(&vec![]), None);
    assert!(lists_format(&vec![1, 2, 3], 3));
    assert!(!lists_format(&vec![1, 2, 3], 4));
    assert_eq!(ash::vk::Format::D32_SFLOAT.as_raw(), FORMAT_D32_SFLOAT);
    assert_eq!(ash::vk::Format::D32_SFLOAT_S8_UINT.as_raw(), FORMAT_D32_SFLOAT_S8_UINT);
    assert_eq!(ash::vk::Format::D24_UNORM_S8_UINT.as_raw(), FORMAT_D24_UNORM_S8_UINT);
    assert_eq!(ash::vk::Format::B8G8R8A8_UNORM.as_raw(), FORMAT_B8G8R8A8_UNORM);
}

#[test]
fn extent_area() {
    assert!(Extent { width: 0, height: 1 }.has_zero_area());
    assert!(Extent { width: 1, height: 0 }.has_zero_area());
    assert!(!Extent { width: 1, height: 1 }.has_zero_area());
}
