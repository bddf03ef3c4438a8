use tempest_engine::instance::{
    check_validation_layers_support, create_instance, get_required_extensions,
    validation_layers, InstanceError,
};

fn layers() -> Vec<String> {
    vec!["VK_LAYER_KHRONOS_validation".to_string(), "VK_LAYER_LUNARG_monitor".to_string()]
}

#[test]
fn validation_layer_names() {
    assert_eq!(validation_layers(), layers());
}

#[test]
fn validation_support_needs_every_layer() {
    assert!(check_validation_layers_support(&layers()));
    assert!(!check_validation_layers_support(&vec!["VK_LAYER_LUNARG_monitor".to_string()]));
    assert!(!check_validation_layers_support(&vec![]));
}

#[test]
fn debug_extension_added_with_validation() {
    let platform = vec!["VK_KHR_surface".to_string(), "VK_KHR_xlib_surface".to_string()];
    assert_eq!(get_required_extensions(platform.clone(), false), platform);
    let mut with_debug = platform.clone();
    with_debug.push("VK_EXT_debug_utils".to_string());
    assert_eq!(get_required_extensions(platform, true), with_debug);
}

#[test]
fn instance_refused_without_layers() {
    let r = create_instance(vec![], &vec![], true, 0, 1, 0);
    assert!(matches!(r, Err(InstanceError::ValidationLayersUnavailable)));
}

#[test]
fn instance_plan_packs_versions() {
    let plan = create_instance(vec!["VK_KHR_surface".to_string()], &vec![], false, 0, 1, 2)
        .ok()
        .unwrap();
    assert_eq!(plan.api_version, (1 << 22) | (3 << 12) | 238);
    assert_eq!(plan.api_version, 4206830);
    assert_eq!(plan.engine_version, (1 << 12) | 2);
    assert_eq!(plan.application_version, 4098);
    assert_eq!(plan.application_name, "TempestForge");
    assert_eq!(plan.engine_name, "TempestForge Engine");
    assert_eq!(plan.extensions, vec!["VK_KHR_surface".to_string()]);
    assert!(plan.layers.is_empty());
    assert!(!plan.debug_messenger);
}

#[test]
fn instance_plan_with_validation() {
    let plan = create_instance(vec![], &layers(), true, 1, 0, 0).ok().unwrap();
    assert_eq!(plan.engine_version, 1 << 22);
    assert_eq!(plan.layers, layers());
    assert_eq!(plan.extensions, vec!["VK_EXT_debug_utils".to_string()]);
    assert!(plan.debug_messenger);
}
