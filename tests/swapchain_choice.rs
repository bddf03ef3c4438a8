use tempest_engine::device::QueueFamilyIndices;
use tempest_engine::swapchain::{
    choose_extent, choose_image_count, choose_present_mode, choose_sharing_mode,
    choose_surface_format, create_swapchain, Extent2D, PresentMode, SharingMode,
    SurfaceCapabilities, SurfaceFormat, SwapchainConfig, SwapchainError, SwapchainSupport,
};

fn fmt(format: i32, color_space: i32) -> SurfaceFormat {
    SurfaceFormat { format, color_space }
}

fn caps(current: Extent2D) -> SurfaceCapabilities {
    SurfaceCapabilities {
        min_image_count: 2,
        max_image_count: 3,
        current_extent: current,
        min_image_extent: Extent2D { width: 100, height: 100 },
        max_image_extent: Extent2D { width: 2000, height: 1000 },
    }
}

#[test]
fn srgb_format_chosen_even_when_not_first() {
    let formats = vec![fmt(44, 0), fmt(37, 0), fmt(50, 0), fmt(43, 0)];
    assert_eq!(choose_surface_format(&formats), fmt(50, 0));
}

#[test]
fn srgb_format_needs_nonlinear_colour_space() {
    let formats = vec![fmt(44, 0), fmt(50, 1000104001)];
    assert_eq!(choose_surface_format(&formats), fmt(44, 0));
}

#[test]
fn first_format_when_no_srgb() {
    let formats = vec![fmt(64, 0), fmt(44, 0)];
    assert_eq!(choose_surface_format(&formats), fmt(64, 0));
    assert_eq!(choose_surface_format(&vec![fmt(36, 0)]), fmt(36, 0));
}

#[test]
fn mailbox_preferred() {
    assert_eq!(choose_present_mode(&vec![PresentMode::Fifo, PresentMode::Mailbox]), PresentMode::Mailbox);
    assert_eq!(choose_present_mode(&vec![PresentMode::Mailbox]), PresentMode::Mailbox);
}

#[test]
fn fifo_fallback_never_fails() {
    assert_eq!(choose_present_mode(&vec![PresentMode::Fifo]), PresentMode::Fifo);
    assert_eq!(choose_present_mode(&vec![]), PresentMode::Fifo);
    assert_eq!(
        choose_present_mode(&vec![PresentMode::Immediate, PresentMode::Other(1000111000)]),
        PresentMode::Fifo
    );
}

#[test]
fn fixed_extent_used_as_is() {
    let c = caps(Extent2D { width: 640, height: 480 });
    assert_eq!(choose_extent(&c, Extent2D { width: 1920, height: 1080 }), Extent2D { width: 640, height: 480 });
}

#[test]
fn window_size_clamped_when_extent_is_free() {
    let c = caps(Extent2D { width: u32::MAX, height: u32::MAX });
    assert_eq!(choose_extent(&c, Extent2D { width: 1920, height: 1080 }), Extent2D { width: 1920, height: 1000 });
    assert_eq!(choose_extent(&c, Extent2D { width: 50, height: 500 }), Extent2D { width: 100, height: 500 });
    assert_eq!(choose_extent(&c, Extent2D { width: 5000, height: 0 }), Extent2D { width: 2000, height: 100 });
}

#[test]
fn image_count_is_min_plus_one_capped() {
    let mut c = caps(Extent2D { width: 1, height: 1 });
    assert_eq!(choose_image_count(&c), 3);
    c.min_image_count = 3;
    assert_eq!(choose_image_count(&c), 3);
    c.max_image_count = 0;
    assert_eq!(choose_image_count(&c), 4);
}

#[test]
fn sharing_mode_follows_families() {
    let same = QueueFamilyIndices { graphics_family: Some(1), present_family: Some(1) };
    assert_eq!(choose_sharing_mode(&same), SharingMode::Exclusive);
    let split = QueueFamilyIndices { graphics_family: Some(0), present_family: Some(1) };
    assert_eq!(
        choose_sharing_mode(&split),
        SharingMode::Concurrent { graphics_family: 0, present_family: 1 }
    );
}

#[test]
fn swapchain_config_combines_choices() {
    let support = SwapchainSupport {
        capabilities: caps(Extent2D { width: u32::MAX, height: u32::MAX }),
        formats: vec![fmt(44, 0), fmt(50, 0)],
        present_modes: vec![PresentMode::Fifo, PresentMode::Mailbox],
    };
    let idx = QueueFamilyIndices { graphics_family: Some(0), present_family: Some(0) };
    assert_eq!(
        create_swapchain(&support, &idx, Extent2D { width: 800, height: 600 }),
        Ok(SwapchainConfig {
            surface_format: fmt(50, 0),
            present_mode: PresentMode::Mailbox,
            extent: Extent2D { width: 800, height: 600 },
            image_count: 3,
            sharing_mode: SharingMode::Exclusive,
        })
    );
}

#[test]
fn swapchain_refused_for_zero_area_or_no_format() {
    let mut support = SwapchainSupport {
        capabilities: caps(Extent2D { width: 0, height: 0 }),
        formats: vec![fmt(50, 0)],
        present_modes: vec![PresentMode::Fifo],
    };
    let idx = QueueFamilyIndices { graphics_family: Some(0), present_family: Some(1) };
    assert_eq!(
        create_swapchain(&support, &idx, Extent2D { width: 0, height: 0 }),
        Err(SwapchainError::ZeroExtent)
    );
    support.formats = vec![];
    assert_eq!(
        create_swapchain(&support, &idx, Extent2D { width: 10, height: 10 }),
        Err(SwapchainError::NoSurfaceFormat)
    );
}
