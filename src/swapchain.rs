//! Choice of the swapchain's format, present mode, extent, image count and
//! sharing mode from what the surface reports.
use vstd::prelude::*;
use crate::device::QueueFamilyIndices;

verus! {

/// Raw value of `VK_COLOR_SPACE_SRGB_NONLINEAR_KHR`.
pub const COLOR_SPACE_SRGB_NONLINEAR: i32 = 0;
/// Raw value of `VK_FORMAT_R8G8B8_SRGB`.
pub const FORMAT_R8G8B8_SRGB: i32 = 29;
/// Raw value of `VK_FORMAT_B8G8R8_SRGB`.
pub const FORMAT_B8G8R8_SRGB: i32 = 36;
/// Raw value of `VK_FORMAT_R8G8B8A8_SRGB`.
pub const FORMAT_R8G8B8A8_SRGB: i32 = 43;
/// Raw value of `VK_FORMAT_B8G8R8A8_SRGB`.
pub const FORMAT_B8G8R8A8_SRGB: i32 = 50;
/// Raw value of `VK_FORMAT_A8B8G8R8_SRGB_PACK32`.
pub const FORMAT_A8B8G8R8_SRGB_PACK32: i32 = 57;

/// The surface's "any extent" sentinel in `current_extent.width`.
pub const EXTENT_UNDEFINED: u32 = 0xffff_ffff;

/// Width and height in pixels.
#[derive(Clone, Copy, Debug, PartialEq, Eq, Structural)]
pub struct Extent2D {
    pub width: u32,
    pub height: u32,
}

impl Extent2D {
    pub open spec fn has_area(self) -> bool {
        self.width > 0 && self.height > 0
    }
}

/// A pixel format with its colour space, as raw Vulkan values.
#[derive(Clone, Copy, Debug, PartialEq, Eq, Structural)]
pub struct SurfaceFormat {
    pub format: i32,
    pub color_space: i32,
}

/// How finished images are handed to the display.
#[derive(Clone, Copy, Debug, PartialEq, Eq, Structural)]
pub enum PresentMode {
    Immediate,
    Mailbox,
    Fifo,
    FifoRelaxed,
    /// A mode from an extension, by its raw value.
    Other(i32),
}

/// The bounds that the surface places on a swapchain.
#[derive(Clone, Copy, Debug, PartialEq, Eq, Structural)]
pub struct SurfaceCapabilities {
    pub min_image_count: u32,
    /// Zero when there is no upper bound.
    pub max_image_count: u32,
    pub current_extent: Extent2D,
    pub min_image_extent: Extent2D,
    pub max_image_extent: Extent2D,
}

/// Everything that the surface reports for one physical device.
pub struct SwapchainSupport {
    pub capabilities: SurfaceCapabilities,
    pub formats: Vec<SurfaceFormat>,
    pub present_modes: Vec<PresentMode>,
}

impl SwapchainSupport {
    /// A swapchain can be made: some format and some present mode exist.
    pub open spec fn adequate(&self) -> bool {
        self.formats@.len() > 0 && self.present_modes@.len() > 0
    }
}

/// An 8-bit-per-channel sRGB format in the sRGB non-linear colour space.
pub open spec fn is_preferred_format(f: SurfaceFormat) -> bool {
    &&& (f.format == FORMAT_R8G8B8_SRGB || f.format == FORMAT_B8G8R8_SRGB
        || f.format == FORMAT_R8G8B8A8_SRGB || f.format == FORMAT_B8G8R8A8_SRGB
        || f.format == FORMAT_A8B8G8R8_SRGB_PACK32)
    &&& f.color_space == COLOR_SPACE_SRGB_NONLINEAR
}

/// The format that is chosen from a non-empty list: the first preferred one,
/// else the first one.
pub open spec fn chosen_format(formats: Seq<SurfaceFormat>) -> SurfaceFormat {
    if exists|i: int| 0 <= i < formats.len() && is_preferred_format(formats[i]) {
        let i = choose|i: int|
            0 <= i < formats.len() && is_preferred_format(formats[i]) && forall|j: int|
                0 <= j < i ==> !is_preferred_format(#[trigger] formats[j]);
        formats[i]
    } else {
        formats[0]
    }
}

/// A list whose first 8-bit sRGB non-linear entry stands at `i` yields that
/// entry, wherever it stands; a list with none yields its first entry.
pub proof fn lemma_preferred_format_chosen(formats: Seq<SurfaceFormat>, i: int)
    requires
        formats.len() > 0,
    ensures
        0 <= i < formats.len() && is_preferred_format(formats[i]) && (forall|j: int|
            0 <= j < i ==> !is_preferred_format(#[trigger] formats[j])) ==> chosen_format(formats)
            == formats[i],
        (forall|j: int| 0 <= j < formats.len() ==> !is_preferred_format(#[trigger] formats[j]))
            ==> chosen_format(formats) == formats[0],
{
    if 0 <= i < formats.len() && is_preferred_format(formats[i]) && (forall|j: int|
        0 <= j < i ==> !is_preferred_format(#[trigger] formats[j])) {
        let k = choose|k: int|
            0 <= k < formats.len() && is_preferred_format(formats[k]) && forall|j: int|
                0 <= j < k ==> !is_preferred_format(#[trigger] formats[j]);
        if k < i {
            assert(!is_preferred_format(formats[k]));
        } else if k > i {
            assert(!is_preferred_format(formats[i]));
        }
    }
}

fn is_preferred(f: &SurfaceFormat) -> (r: bool)
    ensures
        r == is_preferred_format(*f),
{
    let srgb8 = f.format == FORMAT_R8G8B8_SRGB || f.format == FORMAT_B8G8R8_SRGB
        || f.format == FORMAT_R8G8B8A8_SRGB || f.format == FORMAT_B8G8R8A8_SRGB
        || f.format == FORMAT_A8B8G8R8_SRGB_PACK32;
    srgb8 && f.color_space == COLOR_SPACE_SRGB_NONLINEAR
}

/// Picks the first 8-bit sRGB non-linear format, or the first format when
/// there is none.
pub fn choose_surface_format(formats: &Vec<SurfaceFormat>) -> (r: SurfaceFormat)
    requires
        formats@.len() > 0,
    ensures
        r == chosen_format(formats@),
        forall|i: int|
            0 <= i < formats@.len() && is_preferred_format(#[trigger] formats@[i]) && (forall|j: int|
                0 <= j < i ==> !is_preferred_format(#[trigger] formats@[j])) ==> r == formats@[i],
        (forall|j: int| 0 <= j < formats@.len() ==> !is_preferred_format(#[trigger] formats@[j]))
            ==> r == formats@[0],
{
    proof {
        assert forall|i: int|
            0 <= i < formats@.len() && is_preferred_format(#[trigger] formats@[i]) && (forall|j: int|
                0 <= j < i ==> !is_preferred_format(#[trigger] formats@[j])) implies chosen_format(
            formats@,
        ) == formats@[i] by {
            lemma_preferred_format_chosen(formats@, i);
        }
        lemma_preferred_format_chosen(formats@, 0);
    }
    let mut i: usize = 0;
    while i < formats.len()
        invariant
            i <= formats@.len(),
            forall|j: int| 0 <= j < i ==> !is_preferred_format(#[trigger] formats@[j]),
        decreases formats@.len() - i,
    {
        if is_preferred(&formats[i]) {
            proof {
                lemma_preferred_format_chosen(formats@, i as int);
            }
            return formats[i];
        }
        i = i + 1;
    }
    formats[0]
}

/// Mailbox when the surface offers it, else FIFO, which every surface offers.
pub open spec fn chosen_present_mode(modes: Seq<PresentMode>) -> PresentMode {
    if modes.contains(PresentMode::Mailbox) {
        PresentMode::Mailbox
    } else {
        PresentMode::Fifo
    }
}

/// Picks mailbox when it is offered, else FIFO; never fails.
pub fn choose_present_mode(modes: &Vec<PresentMode>) -> (r: PresentMode)
    ensures
        r == chosen_present_mode(modes@),
        modes@.contains(PresentMode::Mailbox) ==> r == PresentMode::Mailbox,
        !modes@.contains(PresentMode::Mailbox) ==> r == PresentMode::Fifo,
{
    let mut i: usize = 0;
    while i < modes.len()
        invariant
            i <= modes@.len(),
            forall|j: int| 0 <= j < i ==> modes@[j] != PresentMode::Mailbox,
        decreases modes@.len() - i,
    {
        if modes[i] == PresentMode::Mailbox {
            assert(modes@.contains(PresentMode::Mailbox)) by {
                assert(modes@[i as int] == PresentMode::Mailbox);
            }
            return PresentMode::Mailbox;
        }
        i = i + 1;
    }
    PresentMode::Fifo
}

pub open spec fn clamp(v: u32, lo: u32, hi: u32) -> u32 {
    let upper = if v < hi { v } else { hi };
    if upper > lo { upper } else { lo }
}

/// The surface's fixed extent when it has one, else the window's size
/// clamped to the surface's bounds.
pub open spec fn chosen_extent(caps: SurfaceCapabilities, window: Extent2D) -> Extent2D {
    if caps.current_extent.width != EXTENT_UNDEFINED {
        caps.current_extent
    } else {
        Extent2D {
            width: clamp(window.width, caps.min_image_extent.width, caps.max_image_extent.width),
            height: clamp(
                window.height,
                caps.min_image_extent.height,
                caps.max_image_extent.height,
            ),
        }
    }
}

fn clamp_exec(v: u32, lo: u32, hi: u32) -> (r: u32)
    ensures
        r == clamp(v, lo, hi),
{
    let upper = if v < hi { v } else { hi };
    if upper > lo { upper } else { lo }
}

/// The extent of the swapchain for a window of the given size.
pub fn choose_extent(caps: &SurfaceCapabilities, window: Extent2D) -> (r: Extent2D)
    ensures
        r == chosen_extent(*caps, window),
{
    if caps.current_extent.width != EXTENT_UNDEFINED {
        caps.current_extent
    } else {
        Extent2D {
            width: clamp_exec(
                window.width,
                caps.min_image_extent.width,
                caps.max_image_extent.width,
            ),
            height: clamp_exec(
                window.height,
                caps.min_image_extent.height,
                caps.max_image_extent.height,
            ),
        }
    }
}

/// One more image than the minimum, capped by the maximum when there is one.
pub open spec fn chosen_image_count(caps: SurfaceCapabilities) -> int {
    let wanted = caps.min_image_count + 1;
    if caps.max_image_count > 0 && wanted > caps.max_image_count {
        caps.max_image_count as int
    } else {
        wanted
    }
}

/// The number of images to ask the swapchain for.
pub fn choose_image_count(caps: &SurfaceCapabilities) -> (r: u32)
    requires
        caps.min_image_count < u32::MAX,
    ensures
        r == chosen_image_count(*caps),
{
    let wanted = caps.min_image_count + 1;
    if caps.max_image_count > 0 && wanted > caps.max_image_count {
        caps.max_image_count
    } else {
        wanted
    }
}

/// Whether the swapchain's images are shared between two queue families.
#[derive(Clone, Copy, Debug, PartialEq, Eq, Structural)]
pub enum SharingMode {
    Exclusive,
    Concurrent { graphics_family: u32, present_family: u32 },
}

pub open spec fn chosen_sharing_mode(graphics_family: u32, present_family: u32) -> SharingMode {
    if graphics_family != present_family {
        SharingMode::Concurrent { graphics_family, present_family }
    } else {
        SharingMode::Exclusive
    }
}

/// Concurrent across two distinct families, else exclusive.
pub fn choose_sharing_mode(indices: &QueueFamilyIndices) -> (r: SharingMode)
    requires
        indices.complete(),
    ensures
        r == chosen_sharing_mode(indices.graphics_family->0, indices.present_family->0),
{
    let g = indices.graphics_family.unwrap();
    let p = indices.present_family.unwrap();
    if g != p {
        SharingMode::Concurrent { graphics_family: g, present_family: p }
    } else {
        SharingMode::Exclusive
    }
}

/// Everything that the swapchain is created with.
#[derive(Clone, Copy, Debug, PartialEq, Eq, Structural)]
pub struct SwapchainConfig {
    pub surface_format: SurfaceFormat,
    pub present_mode: PresentMode,
    pub extent: Extent2D,
    pub image_count: u32,
    pub sharing_mode: SharingMode,
}

/// Why no swapchain is made.
#[derive(Clone, Copy, Debug, PartialEq, Eq, Structural)]
pub enum SwapchainError {
    /// The surface reports no format.
    NoSurfaceFormat,
    /// The extent has no area, as for a minimised window: skip, do not build.
    ZeroExtent,
}

/// Chooses format, present mode, extent, image count and sharing mode for
/// the surface and a window of size `window`.
pub fn create_swapchain(
    support: &SwapchainSupport,
    indices: &QueueFamilyIndices,
    window: Extent2D,
) -> (r: Result<SwapchainConfig, SwapchainError>)
    requires
        indices.complete(),
        support.capabilities.min_image_count < u32::MAX,
    ensures
        support.formats@.len() == 0 ==> r == Err::<SwapchainConfig, SwapchainError>(
            SwapchainError::NoSurfaceFormat,
        ),
        support.formats@.len() > 0 && !chosen_extent(support.capabilities, window).has_area()
            ==> r == Err::<SwapchainConfig, SwapchainError>(SwapchainError::ZeroExtent),
        support.formats@.len() > 0 && chosen_extent(support.capabilities, window).has_area() ==> r
            == Ok::<SwapchainConfig, SwapchainError>(
            SwapchainConfig {
                surface_format: chosen_format(support.formats@),
                present_mode: chosen_present_mode(support.present_modes@),
                extent: chosen_extent(support.capabilities, window),
                image_count: chosen_image_count(support.capabilities) as u32,
                sharing_mode: chosen_sharing_mode(
                    indices.graphics_family->0,
                    indices.present_family->0,
                ),
            },
        ),
{
    if support.formats.len() == 0 {
        return Err(SwapchainError::NoSurfaceFormat);
    }
    let extent = choose_extent(&support.capabilities, window);
    if extent.width == 0 || extent.height == 0 {
        return Err(SwapchainError::ZeroExtent);
    }
    Ok(
        SwapchainConfig {
            surface_format: choose_surface_format(&support.formats),
            present_mode: choose_present_mode(&support.present_modes),
            extent,
            image_count: choose_image_count(&support.capabilities),
            sharing_mode: choose_sharing_mode(indices),
        },
    )
}

} // verus!
