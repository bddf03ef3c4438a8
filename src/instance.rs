//! What the API instance is created with.
use vstd::prelude::*;
use crate::device::{all_offered, check_device_extension_support};

verus! {

/// Name of the instance extension that routes validation messages.
pub const DEBUG_UTILS_EXTENSION: &'static str = "VK_EXT_debug_utils";

/// The validation layers that a debug build asks for, by name.
pub open spec fn validation_layer_names() -> Seq<Seq<char>> {
    seq!["VK_LAYER_KHRONOS_validation"@, "VK_LAYER_LUNARG_monitor"@]
}

/// The validation layers that a debug build asks for.
pub fn validation_layers() -> (r: Vec<String>)
    ensures
        r@.map_values(|s: String| s@) == validation_layer_names(),
{
    let mut r: Vec<String> = Vec::new();
    r.push("VK_LAYER_KHRONOS_validation".to_owned());
    r.push("VK_LAYER_LUNARG_monitor".to_owned());
    assert(r@.map_values(|s: String| s@) =~= validation_layer_names());
    r
}

/// Whether every validation layer is among the layers that the loader offers.
pub fn check_validation_layers_support(available: &Vec<String>) -> (r: bool)
    ensures
        r == all_offered(available@, validation_layer_names()),
{
    let required = validation_layers();
    check_device_extension_support(available, &required)
}

/// The platform's surface extensions, and the debug-utils extension when
/// validation is on.
pub fn get_required_extensions(platform_extensions: Vec<String>, use_validation_layers: bool) -> (r:
    Vec<String>)
    ensures
        use_validation_layers ==> r@.len() == platform_extensions@.len() + 1 && r@.drop_last()
            == platform_extensions@ && r@.last()@ == "VK_EXT_debug_utils"@,
        !use_validation_layers ==> r@ == platform_extensions@,
{
    let mut r = platform_extensions;
    if use_validation_layers {
        r.push(DEBUG_UTILS_EXTENSION.to_owned());
        assert(r@.drop_last() =~= platform_extensions@);
    }
    r
}

/// Relies on ash::vk::make_api_version: packs a variant, major, minor and
/// patch number into one word at bits 29, 22, 12 and 0.
#[verifier::external_body]
fn make_api_version(variant: u32, major: u32, minor: u32, patch: u32) -> (r: u32)
    ensures
        r == ((variant << 29u32) | (major << 22u32) | (minor << 12u32) | patch),
{
    ash::vk::make_api_version(variant, major, minor, patch)
}

/// A version number in the API's packed form, with variant zero.
pub open spec fn packed_version(major: u32, minor: u32, patch: u32) -> u32 {
    (0u32 << 29u32) | (major << 22u32) | (minor << 12u32) | patch
}

/// The API version that the renderer is written against.
pub open spec fn target_api_version() -> u32 {
    packed_version(1, 3, 238)
}

/// What the API instance is created with.
pub struct InstancePlan {
    pub application_name: String,
    pub engine_name: String,
    pub application_version: u32,
    pub engine_version: u32,
    pub api_version: u32,
    pub extensions: Vec<String>,
    pub layers: Vec<String>,
    /// Whether a debug messenger is chained to the creation so that
    /// creation itself is validated.
    pub debug_messenger: bool,
}

/// Why the instance cannot be created.
#[derive(Clone, Copy, Debug, PartialEq, Eq, Structural)]
pub enum InstanceError {
    ValidationLayersUnavailable,
}

/// Plans the instance: refuses when validation is asked for and a layer is
/// missing, else names the application, engine, versions, extensions and
/// layers.
pub fn create_instance(
    platform_extensions: Vec<String>,
    available_layers: &Vec<String>,
    use_validation_layers: bool,
    major: u32,
    minor: u32,
    patch: u32,
) -> (r: Result<InstancePlan, InstanceError>)
    ensures
        r is Err <==> use_validation_layers && !all_offered(
            available_layers@,
            validation_layer_names(),
        ),
        r matches Ok(plan) ==> {
            &&& plan.application_name@ == "TempestForge"@
            &&& plan.engine_name@ == "TempestForge Engine"@
            &&& plan.application_version == packed_version(major, minor, patch)
            &&& plan.engine_version == packed_version(major, minor, patch)
            &&& plan.api_version == target_api_version()
            &&& plan.debug_messenger == use_validation_layers
            &&& use_validation_layers ==> plan.extensions@.drop_last() == platform_extensions@
                && plan.extensions@.len() == platform_extensions@.len() + 1
                && plan.extensions@.last()@ == "VK_EXT_debug_utils"@
                && plan.layers@.map_values(|s: String| s@) == validation_layer_names()
            &&& !use_validation_layers ==> plan.extensions@ == platform_extensions@
                && plan.layers@.len() == 0
        },
{
    if use_validation_layers && !check_validation_layers_support(available_layers) {
        return Err(InstanceError::ValidationLayersUnavailable);
    }
    let version = make_api_version(0, major, minor, patch);
    let api_version = make_api_version(0, 1, 3, 238);
    let layers = if use_validation_layers {
        validation_layers()
    } else {
        Vec::new()
    };
    Ok(
        InstancePlan {
            application_name: "TempestForge".to_owned(),
            engine_name: "TempestForge Engine".to_owned(),
            application_version: version,
            engine_version: version,
            api_version,
            extensions: get_required_extensions(platform_extensions, use_validation_layers),
            layers,
            debug_messenger: use_validation_layers,
        },
    )
}

} // verus!
