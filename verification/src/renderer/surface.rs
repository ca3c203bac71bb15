//! Planning a swapchain from what a surface reports about itself.

use vstd::prelude::*;

verus! {

/// Four 8-bit unsigned normalized channels, red first (`VkFormat`).
pub const FORMAT_R8G8B8A8_UNORM: i32 = 37;

/// Presenting in step with the display (`VkPresentModeKHR`).
pub const PRESENT_MODE_FIFO: i32 = 2;

/// The swapchain's images are drawn to (`VkImageUsageFlagBits`).
pub const USAGE_COLOR_ATTACHMENT: u32 = 0x10;

/// One queue family owns an image at a time (`VkSharingMode`).
pub const SHARING_EXCLUSIVE: i32 = 0;

/// Alpha is ignored when composing (`VkCompositeAlphaFlagBitsKHR`).
pub const COMPOSITE_ALPHA_OPAQUE: u32 = 1;

/// Why a renderer could not be made or could not go on.
#[derive(Debug)]
pub enum Error {
    /// The Vulkan library itself could not be loaded.
    Loading(String),
    /// A Vulkan call returned this code.
    Vulkan(i32),
    /// No device has a queue family for both graphics and compute, or a
    /// surface offers no format.
    NoSuitableDevice,
}

/// A size in pixels.
#[derive(Clone, Copy, PartialEq, Eq, Structural, Debug)]
pub struct Extent {
    pub width: u32,
    pub height: u32,
}

/// A pixel format and the color space it is shown in.
#[derive(Clone, Copy, PartialEq, Eq, Structural, Debug)]
pub struct SurfaceFormat {
    pub format: i32,
    pub color_space: i32,
}

/// What a surface allows. A `current_extent` of the largest width means that
/// the surface has no size of its own, and a `max_image_count` of zero that
/// there is no maximum.
#[derive(Clone, Copy, PartialEq, Eq, Structural, Debug)]
pub struct SurfaceCapabilities {
    pub min_image_count: u32,
    pub max_image_count: u32,
    pub current_extent: Extent,
    pub min_image_extent: Extent,
    pub max_image_extent: Extent,
    pub current_transform: u32,
}

/// Everything a swapchain is created with.
#[derive(Clone, Copy, PartialEq, Eq, Structural, Debug)]
pub struct SwapchainPlan {
    pub min_image_count: u32,
    pub format: SurfaceFormat,
    pub extent: Extent,
    pub image_array_layers: u32,
    pub image_usage: u32,
    pub image_sharing_mode: i32,
    pub pre_transform: u32,
    pub composite_alpha: u32,
    pub present_mode: i32,
    pub clipped: bool,
}

/// The first format with the preferred channel layout, if there is one.
pub open spec fn preferred_format(formats: Seq<SurfaceFormat>) -> Option<SurfaceFormat>
    decreases formats.len(),
{
    if formats.len() == 0 {
        None
    } else if formats.first().format == FORMAT_R8G8B8A8_UNORM {
        Some(formats.first())
    } else {
        preferred_format(formats.drop_first())
    }
}

/// The preferred format if it is offered, else the first one offered.
pub open spec fn chosen_format(formats: Seq<SurfaceFormat>) -> Option<SurfaceFormat> {
    if preferred_format(formats) is Some {
        preferred_format(formats)
    } else if formats.len() > 0 {
        Some(formats.first())
    } else {
        None
    }
}

/// `n`, or the nearer of `low` and `high` if it lies outside.
pub open spec fn clamped(n: u32, low: u32, high: u32) -> u32 {
    if n < low {
        low
    } else if n > high {
        high
    } else {
        n
    }
}

/// Whether a surface has no size of its own.
pub open spec fn sizeless(capabilities: SurfaceCapabilities) -> bool {
    capabilities.current_extent.width == u32::MAX
}

/// The surface's own size, or `wanted` within its limits if it has none.
pub open spec fn chosen_extent(capabilities: SurfaceCapabilities, wanted: Extent) -> Extent {
    if sizeless(capabilities) {
        Extent {
            width: clamped(
                wanted.width,
                capabilities.min_image_extent.width,
                capabilities.max_image_extent.width,
            ),
            height: clamped(
                wanted.height,
                capabilities.min_image_extent.height,
                capabilities.max_image_extent.height,
            ),
        }
    } else {
        capabilities.current_extent
    }
}

/// One image more than the minimum, within the maximum if there is one.
pub open spec fn chosen_image_count(capabilities: SurfaceCapabilities) -> int {
    let wanted = capabilities.min_image_count + 1;
    if 0 < capabilities.max_image_count < wanted {
        capabilities.max_image_count as int
    } else {
        wanted
    }
}

/// Limits that a surface reports are usable: the largest size is no smaller
/// than the smallest, where that matters, and one image more than the
/// minimum can be asked for.
pub open spec fn usable_limits(capabilities: SurfaceCapabilities) -> bool {
    &&& capabilities.min_image_count < u32::MAX
    &&& sizeless(capabilities) ==> {
        &&& capabilities.min_image_extent.width <= capabilities.max_image_extent.width
        &&& capabilities.min_image_extent.height <= capabilities.max_image_extent.height
    }
}

/// The plan for a surface with these capabilities and this format.
pub open spec fn plan_for(
    capabilities: SurfaceCapabilities,
    format: SurfaceFormat,
    wanted: Extent,
) -> SwapchainPlan {
    SwapchainPlan {
        min_image_count: chosen_image_count(capabilities) as u32,
        format,
        extent: chosen_extent(capabilities, wanted),
        image_array_layers: 1,
        image_usage: USAGE_COLOR_ATTACHMENT,
        image_sharing_mode: SHARING_EXCLUSIVE,
        pre_transform: capabilities.current_transform,
        composite_alpha: COMPOSITE_ALPHA_OPAQUE,
        present_mode: PRESENT_MODE_FIFO,
        clipped: true,
    }
}

fn choose_format(formats: &Vec<SurfaceFormat>) -> (format: Option<SurfaceFormat>)
    ensures
        format == chosen_format(formats@),
{
    let mut i: usize = 0;
    assert(formats@.skip(0) == formats@);
    while i < formats.len()
        invariant
            i <= formats.len(),
            preferred_format(formats@) == preferred_format(formats@.skip(i as int)),
        decreases formats.len() - i,
    {
        assert(formats@.skip(i as int).drop_first() == formats@.skip(i + 1));
        if formats[i].format == FORMAT_R8G8B8A8_UNORM {
            return Some(formats[i]);
        }
        i += 1;
    }
    if formats.len() > 0 {
        Some(formats[0])
    } else {
        None
    }
}

fn clamp(n: u32, low: u32, high: u32) -> (m: u32)
    ensures
        m == clamped(n, low, high),
{
    if n < low {
        low
    } else if n > high {
        high
    } else {
        n
    }
}

/// Plans a swapchain. `wanted` counts only if the surface has no size of its
/// own. Presenting always keeps in step with the display: every
/// implementation offers that mode, so the ones it lists are not consulted.
pub fn plan_swapchain(
    capabilities: &SurfaceCapabilities,
    formats: &Vec<SurfaceFormat>,
    wanted: Extent,
) -> (plan: Result<SwapchainPlan, Error>)
    requires
        formats@.len() > 0 ==> usable_limits(*capabilities),
    ensures
        match plan {
            Ok(p) => chosen_format(formats@) is Some && p == plan_for(
                *capabilities,
                chosen_format(formats@)->0,
                wanted,
            ),
            Err(e) => formats@.len() == 0 && e is NoSuitableDevice,
        },
{
    let format = match choose_format(formats) {
        Some(format) => format,
        None => return Err(Error::NoSuitableDevice),
    };
    let extent = if capabilities.current_extent.width != u32::MAX {
        capabilities.current_extent
    } else {
        Extent {
            width: clamp(
                wanted.width,
                capabilities.min_image_extent.width,
                capabilities.max_image_extent.width,
            ),
            height: clamp(
                wanted.height,
                capabilities.min_image_extent.height,
                capabilities.max_image_extent.height,
            ),
        }
    };
    let mut image_count: u32 = capabilities.min_image_count + 1;
    if capabilities.max_image_count > 0 && capabilities.max_image_count < image_count {
        image_count = capabilities.max_image_count;
    }
    Ok(
        SwapchainPlan {
            min_image_count: image_count,
            format,
            extent,
            image_array_layers: 1,
            image_usage: USAGE_COLOR_ATTACHMENT,
            image_sharing_mode: SHARING_EXCLUSIVE,
            pre_transform: capabilities.current_transform,
            composite_alpha: COMPOSITE_ALPHA_OPAQUE,
            present_mode: PRESENT_MODE_FIFO,
            clipped: true,
        },
    )
}

/// A surface without a size of its own takes the wanted size wherever its
/// limits allow it.
pub proof fn an_allowed_size_is_taken(capabilities: SurfaceCapabilities, wanted: Extent)
    requires
        sizeless(capabilities),
        capabilities.min_image_extent.width <= wanted.width <= capabilities.max_image_extent.width,
        capabilities.min_image_extent.height <= wanted.height
            <= capabilities.max_image_extent.height,
    ensures
        chosen_extent(capabilities, wanted) == wanted,
{
}

/// The planned size and image count stay within what the surface allows.
pub proof fn a_plan_respects_the_limits(
    capabilities: SurfaceCapabilities,
    format: SurfaceFormat,
    wanted: Extent,
)
    requires
        usable_limits(capabilities),
        0 < capabilities.max_image_count ==> capabilities.min_image_count
            <= capabilities.max_image_count,
    ensures
        ({
            let plan = plan_for(capabilities, format, wanted);
            &&& capabilities.min_image_count <= plan.min_image_count
            &&& 0 < capabilities.max_image_count ==> plan.min_image_count
                <= capabilities.max_image_count
            &&& sizeless(capabilities) ==> {
                &&& capabilities.min_image_extent.width <= plan.extent.width
                    <= capabilities.max_image_extent.width
                &&& capabilities.min_image_extent.height <= plan.extent.height
                    <= capabilities.max_image_extent.height
            }
            &&& !sizeless(capabilities) ==> plan.extent == capabilities.current_extent
        }),
{
}

} // verus!
