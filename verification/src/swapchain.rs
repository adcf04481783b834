use vstd::prelude::*;
use crate::error::SwapchainError;

verus! {

/// `VK_FORMAT_B8G8R8A8_SRGB`.
pub const FORMAT_B8G8R8A8_SRGB: i32 = 50;
/// `VK_COLOR_SPACE_SRGB_NONLINEAR_KHR`.
pub const COLOR_SPACE_SRGB_NONLINEAR: i32 = 0;
/// `VK_PRESENT_MODE_MAILBOX_KHR`.
pub const PRESENT_MODE_MAILBOX: i32 = 1;
/// `VK_PRESENT_MODE_FIFO_KHR`, which every surface supports.
pub const PRESENT_MODE_FIFO: i32 = 2;

/// A surface format (`VkSurfaceFormatKHR`) by raw enum values.
#[derive(Debug, Clone, Copy, PartialEq, Eq, Structural)]
pub struct SurfaceFormat {
    pub format: i32,
    pub color_space: i32,
}

/// A two-dimensional extent in pixels (`VkExtent2D`).
#[derive(Debug, Clone, Copy, PartialEq, Eq, Structural)]
pub struct Extent2D {
    pub width: u32,
    pub height: u32,
}

/// What a surface reports it can do (`VkSurfaceCapabilitiesKHR`, the fields the swapchain reads).
#[derive(Debug, Clone, Copy, PartialEq, Eq, Structural)]
pub struct SurfaceCapabilities {
    pub min_image_count: u32,
    /// Zero means "no limit".
    pub max_image_count: u32,
    /// `width == u32::MAX` means the window system lets the swapchain choose.
    pub current_extent: Extent2D,
    pub min_image_extent: Extent2D,
    pub max_image_extent: Extent2D,
    pub current_transform: u32,
}

/// Everything the swapchain is created with that the engine decides.
#[derive(Debug, Clone, Copy, PartialEq, Eq, Structural)]
pub struct SwapchainPlan {
    pub format: SurfaceFormat,
    pub present_mode: i32,
    pub extent: Extent2D,
    pub image_count: u32,
    pub pre_transform: u32,
}

/// The format the engine prefers: 8-bit BGRA in sRGB.
pub open spec fn is_preferred_format(f: SurfaceFormat) -> bool {
    f.format == FORMAT_B8G8R8A8_SRGB && f.color_space == COLOR_SPACE_SRGB_NONLINEAR
}

pub open spec fn preferred_format() -> SurfaceFormat {
    SurfaceFormat { format: FORMAT_B8G8R8A8_SRGB, color_space: COLOR_SPACE_SRGB_NONLINEAR }
}

/// The format chosen from those the surface offers.
pub open spec fn chosen_format(formats: Seq<SurfaceFormat>) -> Option<SurfaceFormat> {
    if exists|i: int| 0 <= i < formats.len() && is_preferred_format(#[trigger] formats[i]) {
        Some(preferred_format())
    } else if formats.len() > 0 {
        Some(formats[0])
    } else {
        None
    }
}

/// `v` limited to `[lo, hi]`.
pub open spec fn clamp(v: u32, lo: u32, hi: u32) -> u32 {
    if v < lo {
        lo
    } else if v > hi {
        hi
    } else {
        v
    }
}

/// The extent can be computed without panicking: when the window system
/// leaves it to the swapchain, the limits are ordered.
pub open spec fn extent_limits_ordered(caps: SurfaceCapabilities) -> bool {
    caps.current_extent.width == u32::MAX ==> {
        &&& caps.min_image_extent.width <= caps.max_image_extent.width
        &&& caps.min_image_extent.height <= caps.max_image_extent.height
    }
}

pub open spec fn chosen_extent(caps: SurfaceCapabilities, width: u32, height: u32) -> Extent2D {
    if caps.current_extent.width != u32::MAX {
        caps.current_extent
    } else {
        Extent2D {
            width: clamp(width, caps.min_image_extent.width, caps.max_image_extent.width),
            height: clamp(height, caps.min_image_extent.height, caps.max_image_extent.height),
        }
    }
}

/// One image more than the minimum, but no more than the maximum when there is one.
pub open spec fn chosen_image_count(caps: SurfaceCapabilities) -> u32 {
    let wanted = (caps.min_image_count + 1) as u32;
    if caps.max_image_count > 0 && wanted > caps.max_image_count {
        caps.max_image_count
    } else {
        wanted
    }
}

pub open spec fn chosen_present_mode(modes: Seq<i32>) -> i32 {
    if modes.contains(PRESENT_MODE_MAILBOX) {
        PRESENT_MODE_MAILBOX
    } else {
        PRESENT_MODE_FIFO
    }
}

/// `v` limited to `[lo, hi]`, as `u32::clamp` does.
pub fn clamp_u32(v: u32, lo: u32, hi: u32) -> (res: u32)
    requires
        lo <= hi,
    ensures
        res == clamp(v, lo, hi),
{
    if v < lo {
        lo
    } else if v > hi {
        hi
    } else {
        v
    }
}

/// The first offered format that is 8-bit BGRA sRGB, else the first offered
/// format; `None` when the surface offers none.
pub fn select_surface_format(formats: &Vec<SurfaceFormat>) -> (res: Option<SurfaceFormat>)
    ensures
        res == chosen_format(formats@),
{
    let n = formats.len();
    let mut i: usize = 0;
    while i < n
        invariant
            i <= n,
            n == formats@.len(),
            forall|j: int| 0 <= j < i ==> !is_preferred_format(#[trigger] formats@[j]),
        decreases n - i,
    {
        let f = formats[i];
        if f.format == FORMAT_B8G8R8A8_SRGB && f.color_space == COLOR_SPACE_SRGB_NONLINEAR {
            return Some(f);
        }
        i = i + 1;
    }
    if n > 0 {
        Some(formats[0])
    } else {
        None
    }
}

/// Mailbox when the surface offers it, else FIFO.
pub fn select_present_mode(modes: &Vec<i32>) -> (res: i32)
    ensures
        res == chosen_present_mode(modes@),
{
    let n = modes.len();
    let mut i: usize = 0;
    while i < n
        invariant
            i <= n,
            n == modes@.len(),
            forall|j: int| 0 <= j < i ==> modes@[j] != PRESENT_MODE_MAILBOX,
        decreases n - i,
    {
        if modes[i] == PRESENT_MODE_MAILBOX {
            assert(modes@.contains(PRESENT_MODE_MAILBOX)) by {
                assert(modes@[i as int] == PRESENT_MODE_MAILBOX);
            }
            return PRESENT_MODE_MAILBOX;
        }
        i = i + 1;
    }
    PRESENT_MODE_FIFO
}

/// The window's current extent when the window system fixes it, else the
/// requested size clamped to the surface's limits.
pub fn compute_extent(caps: &SurfaceCapabilities, requested: (u32, u32)) -> (res: Extent2D)
    requires
        extent_limits_ordered(*caps),
    ensures
        res == chosen_extent(*caps, requested.0, requested.1),
{
    if caps.current_extent.width != u32::MAX {
        caps.current_extent
    } else {
        Extent2D {
            width: clamp_u32(requested.0, caps.min_image_extent.width, caps.max_image_extent.width),
            height: clamp_u32(requested.1, caps.min_image_extent.height, caps.max_image_extent.height),
        }
    }
}

/// How many images to ask the swapchain for.
pub fn compute_image_count(caps: &SurfaceCapabilities) -> (res: u32)
    requires
        caps.min_image_count < u32::MAX,
    ensures
        res == chosen_image_count(*caps),
{
    let wanted = caps.min_image_count + 1;
    if caps.max_image_count > 0 && wanted > caps.max_image_count {
        caps.max_image_count
    } else {
        wanted
    }
}

/// The swapchain configuration for a surface with `caps`, offering `formats`
/// and `present_modes`, for a window of `width` x `height`.  Fails with
/// `NoFormatsAvailable` exactly when no format is offered.
pub fn plan_swapchain(
    caps: &SurfaceCapabilities,
    formats: &Vec<SurfaceFormat>,
    present_modes: &Vec<i32>,
    width: u32,
    height: u32,
) -> (res: Result<SwapchainPlan, SwapchainError>)
    requires
        extent_limits_ordered(*caps),
        caps.min_image_count < u32::MAX,
    ensures
        formats@.len() == 0 ==> res matches Err(SwapchainError::NoFormatsAvailable),
        formats@.len() > 0 ==> res == Ok::<SwapchainPlan, SwapchainError>(
            SwapchainPlan {
                format: chosen_format(formats@).unwrap(),
                present_mode: chosen_present_mode(present_modes@),
                extent: chosen_extent(*caps, width, height),
                image_count: chosen_image_count(*caps),
                pre_transform: caps.current_transform,
            },
        ),
{
    let format = match select_surface_format(formats) {
        Some(f) => f,
        None => {
            return Err(SwapchainError::NoFormatsAvailable);
        },
    };
    let present_mode = select_present_mode(present_modes);
    let extent = compute_extent(caps, (width, height));
    let image_count = compute_image_count(caps);
    Ok(SwapchainPlan { format, present_mode, extent, image_count, pre_transform: caps.current_transform })
}

/// A chosen extent never leaves the surface's limits when the swapchain may choose it.
pub proof fn lemma_extent_within_limits(caps: SurfaceCapabilities, width: u32, height: u32)
    requires
        extent_limits_ordered(caps),
        caps.current_extent.width == u32::MAX,
    ensures
        caps.min_image_extent.width <= chosen_extent(caps, width, height).width <= caps.max_image_extent.width,
        caps.min_image_extent.height <= chosen_extent(caps, width, height).height <= caps.max_image_extent.height,
{
}

/// The image count asks for one image beyond the minimum, and never for more
/// than a stated maximum.
pub proof fn lemma_image_count_bounds(caps: SurfaceCapabilities)
    requires
        caps.min_image_count < u32::MAX,
    ensures
        caps.max_image_count > 0 ==> chosen_image_count(caps) <= caps.max_image_count,
        (caps.max_image_count == 0 || caps.max_image_count > caps.min_image_count)
            ==> chosen_image_count(caps) == caps.min_image_count + 1,
        caps.min_image_count <= caps.max_image_count || caps.max_image_count == 0
            ==> chosen_image_count(caps) >= caps.min_image_count,
{
}

/// The chosen format is always one the surface offers.
pub proof fn lemma_format_is_offered(formats: Seq<SurfaceFormat>)
    requires
        formats.len() > 0,
    ensures
        formats.contains(chosen_format(formats).unwrap()),
{
    if exists|i: int| 0 <= i < formats.len() && is_preferred_format(#[trigger] formats[i]) {
        let i = choose|i: int| 0 <= i < formats.len() && is_preferred_format(#[trigger] formats[i]);
        assert(formats[i] == preferred_format());
    } else {
        assert(formats[0] == formats[0]);
    }
}

/// The chosen present mode is one the surface offers, FIFO being always offered.
pub proof fn lemma_present_mode_is_offered(modes: Seq<i32>)
    requires
        modes.contains(PRESENT_MODE_FIFO),
    ensures
        modes.contains(chosen_present_mode(modes)),
{
}

/// Mailbox is chosen whenever the surface offers it, at whatever position,
/// the first included.
pub proof fn lemma_mailbox_chosen_wherever_offered(modes: Seq<i32>, j: int)
    requires
        0 <= j < modes.len(),
        modes[j] == PRESENT_MODE_MAILBOX,
    ensures
        chosen_present_mode(modes) == PRESENT_MODE_MAILBOX,
{
    assert(modes.contains(PRESENT_MODE_MAILBOX));
}

/// Without mailbox on offer, FIFO is chosen.
pub proof fn lemma_fifo_without_mailbox(modes: Seq<i32>)
    requires
        forall|j: int| 0 <= j < modes.len() ==> modes[j] != PRESENT_MODE_MAILBOX,
    ensures
        chosen_present_mode(modes) == PRESENT_MODE_FIFO,
{
}

/// The preferred sRGB format is chosen whenever the surface offers it, at any
/// position; otherwise the first offered format is.
pub proof fn lemma_preferred_format_chosen(formats: Seq<SurfaceFormat>, j: int)
    requires
        0 <= j < formats.len(),
        formats[j].format == FORMAT_B8G8R8A8_SRGB,
        formats[j].color_space == COLOR_SPACE_SRGB_NONLINEAR,
    ensures
        chosen_format(formats) == Some(formats[j]),
{
    assert(is_preferred_format(formats[j]));
}

/// A requested size within the surface's limits is kept as it is.
pub proof fn lemma_requested_extent_kept(caps: SurfaceCapabilities, width: u32, height: u32)
    requires
        caps.current_extent.width == u32::MAX,
        caps.min_image_extent.width <= width <= caps.max_image_extent.width,
        caps.min_image_extent.height <= height <= caps.max_image_extent.height,
    ensures
        chosen_extent(caps, width, height) == (Extent2D { width, height }),
{
}

/// Without the preferred format on offer the first offered format is chosen,
/// and nothing is chosen from an empty list.
pub proof fn lemma_first_format_fallback(formats: Seq<SurfaceFormat>)
    requires
        forall|j: int| 0 <= j < formats.len()
            ==> !((#[trigger] formats[j]).format == FORMAT_B8G8R8A8_SRGB
                && formats[j].color_space == COLOR_SPACE_SRGB_NONLINEAR),
    ensures
        formats.len() > 0 ==> chosen_format(formats) == Some(formats[0]),
        formats.len() == 0 ==> chosen_format(formats) is None,
{
}

/// Clamping lands inside the bounds, keeps values already inside, and sends
/// values outside to the nearer bound.
pub proof fn lemma_clamp_bounds(v: u32, lo: u32, hi: u32)
    requires
        lo <= hi,
    ensures
        lo <= clamp(v, lo, hi) <= hi,
        lo <= v <= hi ==> clamp(v, lo, hi) == v,
        v < lo ==> clamp(v, lo, hi) == lo,
        v > hi ==> clamp(v, lo, hi) == hi,
{
}

/// When the window system fixes the extent, it is used whatever size was requested.
pub proof fn lemma_fixed_extent_kept(caps: SurfaceCapabilities, width: u32, height: u32)
    requires
        caps.current_extent.width != u32::MAX,
    ensures
        chosen_extent(caps, width, height) == caps.current_extent,
{
}

/// With a maximum no larger than the minimum, the maximum is asked for.
pub proof fn lemma_image_count_capped(caps: SurfaceCapabilities)
    requires
        caps.min_image_count < u32::MAX,
        0 < caps.max_image_count <= caps.min_image_count,
    ensures
        chosen_image_count(caps) == caps.max_image_count,
{
}

} // verus!
