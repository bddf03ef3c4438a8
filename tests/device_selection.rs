use tempest_engine::device::{
    check_device_extension_support, create_logical_device, find_queue_families,
    get_swap_required_extensions, is_device_suitable, rate_device_suitability,
    select_physical_device, DeviceCandidate, DeviceError, DeviceType, QueueFamilyIndices,
    QueueFamilyInfo,
};
use tempest_engine::swapchain::{
    Extent2D, PresentMode, SurfaceCapabilities, SurfaceFormat, SwapchainSupport,
};

fn support() -> SwapchainSupport {
    SwapchainSupport {
        capabilities: SurfaceCapabilities {
            min_image_count: 2,
            max_image_count: 8,
            current_extent: Extent2D { width: 800, height: 600 },
            min_image_extent: Extent2D { width: 1, height: 1 },
            max_image_extent: Extent2D { width: 4096, height: 4096 },
        },
        formats: vec![SurfaceFormat { format: 50, color_space: 0 }],
        present_modes: vec![PresentMode::Fifo],
    }
}

fn family(flags: u32, present: bool) -> QueueFamilyInfo {
    QueueFamilyInfo { queue_count: 1, queue_flags: flags, present_support: present }
}

fn candidate(device_type: DeviceType, dim: u32) -> DeviceCandidate {
    DeviceCandidate {
        device_type,
        max_image_dimension_2d: dim,
        extensions: vec!["VK_KHR_surface".to_string(), "VK_KHR_swapchain".to_string()],
        queue_families: vec![family(1, true)],
        swapchain_support: support(),
    }
}

#[test]
fn swap_required_extensions_is_swapchain() {
    assert_eq!(get_swap_required_extensions(), vec!["VK_KHR_swapchain".to_string()]);
}

#[test]
fn queue_family_indices_start_empty() {
    let q = QueueFamilyIndices::new();
    assert_eq!(q.graphics_family, None);
    assert_eq!(q.present_family, None);
    assert!(!q.is_complete());
    let q = QueueFamilyIndices { graphics_family: Some(0), present_family: Some(1) };
    assert!(q.is_complete());
    let q = QueueFamilyIndices::default();
    assert_eq!((q.graphics_family, q.present_family), (None, None));
}

#[test]
fn queue_families_found_in_separate_families() {
    let fams = vec![family(0, false), family(1, false), family(2, true)];
    let q = find_queue_families(&fams);
    assert_eq!(q.graphics_family, Some(1));
    assert_eq!(q.present_family, Some(2));
}

#[test]
fn queue_family_scan_stops_when_complete() {
    let fams = vec![family(1, true), family(1, true)];
    let q = find_queue_families(&fams);
    assert_eq!(q.graphics_family, Some(0));
    assert_eq!(q.present_family, Some(0));
}

#[test]
fn queue_family_without_queues_is_ignored() {
    let fams = vec![QueueFamilyInfo { queue_count: 0, queue_flags: 1, present_support: true }];
    let q = find_queue_families(&fams);
    assert!(!q.is_complete());
}

#[test]
fn extension_support_needs_every_name() {
    let available = vec!["VK_KHR_swapchain".to_string(), "VK_EXT_a".to_string()];
    assert!(check_device_extension_support(&available, &get_swap_required_extensions()));
    let required = vec!["VK_KHR_swapchain".to_string(), "VK_EXT_b".to_string()];
    assert!(!check_device_extension_support(&available, &required));
    assert!(check_device_extension_support(&vec![], &vec![]));
}

#[test]
fn device_without_present_family_is_unsuitable() {
    let mut c = candidate(DeviceType::DiscreteGpu, 16384);
    c.queue_families = vec![family(1, false)];
    assert!(!is_device_suitable(&c, &get_swap_required_extensions()));
}

#[test]
fn device_without_present_modes_is_unsuitable() {
    let mut c = candidate(DeviceType::DiscreteGpu, 16384);
    c.swapchain_support.present_modes = vec![];
    assert!(!is_device_suitable(&c, &get_swap_required_extensions()));
    assert!(is_device_suitable(&candidate(DeviceType::Cpu, 1), &get_swap_required_extensions()));
}

#[test]
fn score_puts_kind_before_image_limit() {
    assert_eq!(rate_device_suitability(&candidate(DeviceType::DiscreteGpu, 16384)), 4 * (1u64 << 32) + 16384);
    assert_eq!(rate_device_suitability(&candidate(DeviceType::Other, 7)), 7);
    assert!(
        rate_device_suitability(&candidate(DeviceType::DiscreteGpu, 1))
            > rate_device_suitability(&candidate(DeviceType::IntegratedGpu, u32::MAX))
    );
}

#[test]
fn discrete_beats_integrated() {
    let cands = vec![
        candidate(DeviceType::IntegratedGpu, 8192),
        candidate(DeviceType::DiscreteGpu, 16384),
    ];
    assert_eq!(select_physical_device(&cands, &get_swap_required_extensions()), Ok(1));
    let cands = vec![
        candidate(DeviceType::DiscreteGpu, 16384),
        candidate(DeviceType::IntegratedGpu, 8192),
    ];
    assert_eq!(select_physical_device(&cands, &get_swap_required_extensions()), Ok(0));
}

#[test]
fn discrete_wins_even_with_smaller_image_limit() {
    let cands = vec![
        candidate(DeviceType::DiscreteGpu, 4096),
        candidate(DeviceType::IntegratedGpu, 16384),
    ];
    assert_eq!(select_physical_device(&cands, &get_swap_required_extensions()), Ok(0));
}

#[test]
fn integrated_when_no_discrete_qualifies() {
    let mut discrete = candidate(DeviceType::DiscreteGpu, 16384);
    discrete.extensions = vec![];
    let cands = vec![
        discrete,
        candidate(DeviceType::Cpu, 16384),
        candidate(DeviceType::IntegratedGpu, 8192),
        candidate(DeviceType::VirtualGpu, 16384),
    ];
    assert_eq!(select_physical_device(&cands, &get_swap_required_extensions()), Ok(2));
}

#[test]
fn tie_within_kind_goes_to_larger_image_limit() {
    let cands = vec![
        candidate(DeviceType::DiscreteGpu, 8192),
        candidate(DeviceType::DiscreteGpu, 16384),
        candidate(DeviceType::DiscreteGpu, 4096),
    ];
    assert_eq!(select_physical_device(&cands, &get_swap_required_extensions()), Ok(1));
}

#[test]
fn equal_devices_pick_the_last() {
    let cands = vec![
        candidate(DeviceType::DiscreteGpu, 8192),
        candidate(DeviceType::DiscreteGpu, 8192),
    ];
    assert_eq!(select_physical_device(&cands, &get_swap_required_extensions()), Ok(1));
}

#[test]
fn no_suitable_device_fails() {
    assert_eq!(
        select_physical_device(&vec![], &get_swap_required_extensions()),
        Err(DeviceError::NoSuitableDevice)
    );
    let mut c = candidate(DeviceType::DiscreteGpu, 16384);
    c.swapchain_support.formats = vec![];
    assert_eq!(
        select_physical_device(&vec![c], &get_swap_required_extensions()),
        Err(DeviceError::NoSuitableDevice)
    );
}

#[test]
fn logical_device_asks_one_queue_per_family() {
    let same = QueueFamilyIndices { graphics_family: Some(3), present_family: Some(3) };
    let plan = create_logical_device(&same, false);
    assert_eq!(plan.queue_families, vec![3]);
    assert_eq!(plan.extensions, vec!["VK_KHR_swapchain".to_string()]);
    assert!(plan.layers.is_empty());
    let split = QueueFamilyIndices { graphics_family: Some(0), present_family: Some(2) };
    let plan = create_logical_device(&split, true);
    assert_eq!(plan.queue_families, vec![0, 2]);
    assert_eq!(
        plan.layers,
        vec!["VK_LAYER_KHRONOS_validation".to_string(), "VK_LAYER_LUNARG_monitor".to_string()]
    );
}
