use vstd::prelude::*;

use crate::frame::{no_images_in_flight, FrameSyncView};
use crate::queue::QueueFamilyIndices;

verus! {

/// Raw code of the 8-bit BGRA format with sRGB transfer function.
pub const FORMAT_B8G8R8A8_SRGB: i32 = 50;

/// Raw code of the non-linear sRGB color space.
pub const COLOR_SPACE_SRGB_NONLINEAR: i32 = 0;

/// Raw code of the mailbox present mode (low latency, no tearing).
pub const PRESENT_MODE_MAILBOX: i32 = 1;

/// Raw code of the first-in-first-out present mode, which every surface supports.
pub const PRESENT_MODE_FIFO: i32 = 2;

/// Width reported by a surface whose size is decided by the swapchain extent.
pub const EXTENT_FROM_WINDOW: u32 = 0xFFFF_FFFF;

/// A width and a height in pixels.
#[derive(Clone, Copy, Debug, PartialEq, Eq, Structural)]
pub struct Extent2D {
    pub width: u32,
    pub height: u32,
}

/// A pixel format paired with a color space, both as raw codes.
#[derive(Clone, Copy, Debug, PartialEq, Eq, Structural)]
pub struct SurfaceFormat {
    pub format: i32,
    pub color_space: i32,
}

/// What a surface reports about the swapchains it accepts.
#[derive(Clone, Copy, Debug, PartialEq, Eq, Structural)]
pub struct SurfaceCapabilities {
    pub min_image_count: u32,
    /// Zero means that the number of images is unbounded.
    pub max_image_count: u32,
    pub current_extent: Extent2D,
    pub min_image_extent: Extent2D,
    pub max_image_extent: Extent2D,
}

/// Everything a surface supports, as queried for one physical device.
#[derive(Clone, Debug)]
pub struct SwapchainSupport {
    pub capabilities: SurfaceCapabilities,
    pub formats: Vec<SurfaceFormat>,
    pub present_modes: Vec<i32>,
}

/// How swapchain images are shared between queue families.
#[derive(Clone, Copy, Debug, PartialEq, Eq, Structural)]
pub enum SharingMode {
    Exclusive,
    Concurrent,
}

/// The configuration with which a swapchain is requested.
#[derive(Clone, Debug)]
pub struct SwapchainConfig {
    pub image_count: u32,
    pub surface_format: SurfaceFormat,
    pub present_mode: i32,
    pub extent: Extent2D,
    pub sharing_mode: SharingMode,
    /// The queue families that share the images; empty for exclusive sharing.
    pub queue_family_indices: Vec<u32>,
}

/// Why no swapchain configuration can be chosen for a surface.
#[derive(Clone, Copy, Debug, PartialEq, Eq, Structural)]
pub enum SwapchainError {
    NoSurfaceFormats,
    NoPresentModes,
}

pub open spec fn is_preferred_format(f: SurfaceFormat) -> bool {
    f.format == FORMAT_B8G8R8A8_SRGB && f.color_space == COLOR_SPACE_SRGB_NONLINEAR
}

pub open spec fn preferred_format() -> SurfaceFormat {
    SurfaceFormat { format: FORMAT_B8G8R8A8_SRGB, color_space: COLOR_SPACE_SRGB_NONLINEAR }
}

pub open spec fn has_preferred_format(formats: Seq<SurfaceFormat>) -> bool {
    exists|i: int| 0 <= i < formats.len() && is_preferred_format(#[trigger] formats[i])
}

/// The preferred sRGB entry where the list holds it, else the first entry.
pub open spec fn chosen_surface_format(formats: Seq<SurfaceFormat>) -> SurfaceFormat
    recommends
        formats.len() > 0,
{
    if has_preferred_format(formats) {
        preferred_format()
    } else {
        formats[0]
    }
}

/// Mailbox where the list holds it, else FIFO.
pub open spec fn chosen_present_mode(modes: Seq<i32>) -> i32 {
    if modes.contains(PRESENT_MODE_MAILBOX) {
        PRESENT_MODE_MAILBOX
    } else {
        PRESENT_MODE_FIFO
    }
}

/// `v` brought into `[lo, hi]`; where `lo > hi` the lower bound wins.
pub open spec fn clamp(lo: u32, hi: u32, v: u32) -> u32 {
    let below = if v < hi { v } else { hi };
    if lo > below { lo } else { below }
}

pub open spec fn clamp_extent(window: Extent2D, lo: Extent2D, hi: Extent2D) -> Extent2D {
    Extent2D {
        width: clamp(lo.width, hi.width, window.width),
        height: clamp(lo.height, hi.height, window.height),
    }
}

/// The surface's own extent, unless it leaves the choice to the swapchain: then
/// the window size, clamped per axis into the bounds the surface reports.
pub open spec fn chosen_extent(caps: SurfaceCapabilities, window: Extent2D) -> Extent2D {
    if caps.current_extent.width != EXTENT_FROM_WINDOW {
        caps.current_extent
    } else {
        clamp_extent(window, caps.min_image_extent, caps.max_image_extent)
    }
}

/// One image more than the minimum, but no more than a bounded maximum.
pub open spec fn chosen_image_count(min: nat, max: nat) -> nat {
    if max != 0 && min + 1 > max {
        max
    } else {
        min + 1
    }
}

pub open spec fn sharing_families(indices: QueueFamilyIndices) -> Seq<u32> {
    if indices.graphics != indices.presentation {
        seq![indices.graphics, indices.presentation]
    } else {
        Seq::empty()
    }
}

pub open spec fn sharing_mode_for(indices: QueueFamilyIndices) -> SharingMode {
    if indices.graphics != indices.presentation {
        SharingMode::Concurrent
    } else {
        SharingMode::Exclusive
    }
}

/// Picks the 8-bit BGRA sRGB format where the surface offers it, else the first one.
pub fn get_swapchain_surface_format(formats: &Vec<SurfaceFormat>) -> (r: SurfaceFormat)
    requires
        formats@.len() > 0,
    ensures
        r == chosen_surface_format(formats@),
{
    let mut i: usize = 0;
    while i < formats.len()
        invariant
            i <= formats@.len(),
            forall|j: int| 0 <= j < i ==> !is_preferred_format(#[trigger] formats@[j]),
        decreases formats@.len() - i,
    {
        let f = formats[i];
        if f.format == FORMAT_B8G8R8A8_SRGB && f.color_space == COLOR_SPACE_SRGB_NONLINEAR {
            assert(is_preferred_format(formats@[i as int]));
            return f;
        }
        i = i + 1;
    }
    formats[0]
}

/// Picks mailbox where the surface offers it, else FIFO.
pub fn get_swapchain_present_mode(present_modes: &Vec<i32>) -> (r: i32)
    ensures
        r == chosen_present_mode(present_modes@),
{
    let mut i: usize = 0;
    while i < present_modes.len()
        invariant
            i <= present_modes@.len(),
            forall|j: int| 0 <= j < i ==> present_modes@[j] != PRESENT_MODE_MAILBOX,
        decreases present_modes@.len() - i,
    {
        if present_modes[i] == PRESENT_MODE_MAILBOX {
            assert(present_modes@.contains(PRESENT_MODE_MAILBOX));
            return PRESENT_MODE_MAILBOX;
        }
        i = i + 1;
    }
    PRESENT_MODE_FIFO
}

fn clamp_u32(lo: u32, hi: u32, v: u32) -> (r: u32)
    ensures
        r == clamp(lo, hi, v),
{
    let below = if v < hi { v } else { hi };
    if lo > below { lo } else { below }
}

/// Chooses the drawable extent from the surface capabilities and the window size.
pub fn get_swapchain_extent(window: Extent2D, capabilities: &SurfaceCapabilities) -> (r: Extent2D)
    ensures
        r == chosen_extent(*capabilities, window),
{
    if capabilities.current_extent.width != EXTENT_FROM_WINDOW {
        capabilities.current_extent
    } else {
        Extent2D {
            width: clamp_u32(
                capabilities.min_image_extent.width,
                capabilities.max_image_extent.width,
                window.width,
            ),
            height: clamp_u32(
                capabilities.min_image_extent.height,
                capabilities.max_image_extent.height,
                window.height,
            ),
        }
    }
}

/// Chooses how many swapchain images to request.
pub fn choose_image_count(min_image_count: u32, max_image_count: u32) -> (r: u32)
    requires
        max_image_count != 0 || min_image_count < u32::MAX,
    ensures
        r == chosen_image_count(min_image_count as nat, max_image_count as nat),
{
    if max_image_count != 0 && min_image_count >= max_image_count {
        max_image_count
    } else {
        min_image_count + 1
    }
}

/// Concurrent sharing across both families where they differ, else exclusive
/// sharing with no family list.
pub fn choose_sharing(indices: &QueueFamilyIndices) -> (r: (SharingMode, Vec<u32>))
    ensures
        r.0 == sharing_mode_for(*indices),
        r.1@ == sharing_families(*indices),
{
    let mut families: Vec<u32> = Vec::new();
    if indices.graphics != indices.presentation {
        families.push(indices.graphics);
        families.push(indices.presentation);
        assert(families@ =~= sharing_families(*indices));
        (SharingMode::Concurrent, families)
    } else {
        assert(families@ =~= sharing_families(*indices));
        (SharingMode::Exclusive, families)
    }
}

/// Chooses the whole swapchain configuration for a surface, a window size and
/// the queue families that will use the images.
pub fn plan_swapchain(
    support: &SwapchainSupport,
    window: Extent2D,
    indices: &QueueFamilyIndices,
) -> (r: Result<SwapchainConfig, SwapchainError>)
    requires
        support.capabilities.max_image_count != 0 || support.capabilities.min_image_count
            < u32::MAX,
    ensures
        support.formats@.len() == 0 ==> r == Err::<SwapchainConfig, SwapchainError>(
            SwapchainError::NoSurfaceFormats,
        ),
        support.formats@.len() > 0 && support.present_modes@.len() == 0 ==> r == Err::<
            SwapchainConfig,
            SwapchainError,
        >(SwapchainError::NoPresentModes),
        r is Ok <==> support.formats@.len() > 0 && support.present_modes@.len() > 0,
        r matches Ok(c) ==> config_matches(
            c,
            support.capabilities,
            support.formats@,
            support.present_modes@,
            window,
            *indices,
        ),
{
    if support.formats.len() == 0 {
        return Err(SwapchainError::NoSurfaceFormats);
    }
    if support.present_modes.len() == 0 {
        return Err(SwapchainError::NoPresentModes);
    }
    let surface_format = get_swapchain_surface_format(&support.formats);
    let present_mode = get_swapchain_present_mode(&support.present_modes);
    let extent = get_swapchain_extent(window, &support.capabilities);
    let image_count = choose_image_count(
        support.capabilities.min_image_count,
        support.capabilities.max_image_count,
    );
    let (sharing_mode, queue_family_indices) = choose_sharing(indices);
    Ok(SwapchainConfig { image_count, surface_format, present_mode, extent, sharing_mode, queue_family_indices })
}

/// What a configuration planned from these inputs holds.
pub open spec fn config_matches(
    c: SwapchainConfig,
    caps: SurfaceCapabilities,
    formats: Seq<SurfaceFormat>,
    present_modes: Seq<i32>,
    window: Extent2D,
    indices: QueueFamilyIndices,
) -> bool {
    &&& c.image_count == chosen_image_count(caps.min_image_count as nat, caps.max_image_count as nat)
    &&& c.surface_format == chosen_surface_format(formats)
    &&& c.present_mode == chosen_present_mode(present_modes)
    &&& c.extent == chosen_extent(caps, window)
    &&& c.sharing_mode == sharing_mode_for(indices)
    &&& c.queue_family_indices@ == sharing_families(indices)
}

/// The image count is one more than the minimum where the maximum is
/// unbounded; otherwise it exceeds the minimum and stays within the maximum.
/// This needs a maximum above the minimum: where the two are equal the count
/// is the minimum itself.
pub proof fn lemma_image_count_bounds(min: u32, max: u32)
    requires
        max == 0 || max > min,
    ensures
        max != 0 ==> min < chosen_image_count(min as nat, max as nat) <= if min > max {
            min
        } else {
            max
        },
        max == 0 ==> chosen_image_count(min as nat, max as nat) == min + 1,
{
}

/// Where the list holds the 8-bit BGRA sRGB entry, that entry is chosen;
/// otherwise the first. The choice is an entry of the list, and choosing again
/// from a list of the chosen entry alone gives it back.
pub proof fn lemma_surface_format_choice(formats: Seq<SurfaceFormat>)
    requires
        formats.len() > 0,
    ensures
        has_preferred_format(formats) ==> chosen_surface_format(formats) == preferred_format(),
        !has_preferred_format(formats) ==> chosen_surface_format(formats) == formats[0],
        formats.contains(chosen_surface_format(formats)),
        chosen_surface_format(seq![chosen_surface_format(formats)]) == chosen_surface_format(
            formats,
        ),
{
    let c = chosen_surface_format(formats);
    if has_preferred_format(formats) {
        let i = choose|i: int| 0 <= i < formats.len() && is_preferred_format(#[trigger] formats[i]);
        assert(formats[i] == c);
        assert(is_preferred_format(seq![c][0]));
    } else {
        assert(formats[0] == c);
        if has_preferred_format(seq![c]) {
            let i = choose|i: int| 0 <= i < 1 && is_preferred_format(#[trigger] seq![c][i]);
            assert(is_preferred_format(formats[0]));
        }
    }
}

/// Mailbox is chosen exactly where the list holds it, else FIFO; a list that
/// holds FIFO alone gives FIFO.
pub proof fn lemma_present_mode_choice(modes: Seq<i32>)
    ensures
        modes.contains(PRESENT_MODE_MAILBOX) ==> chosen_present_mode(modes) == PRESENT_MODE_MAILBOX,
        !modes.contains(PRESENT_MODE_MAILBOX) ==> chosen_present_mode(modes) == PRESENT_MODE_FIFO,
        chosen_present_mode(seq![PRESENT_MODE_FIFO]) == PRESENT_MODE_FIFO,
{
    assert(seq![PRESENT_MODE_FIFO][0] != PRESENT_MODE_MAILBOX);
}

/// For bounds with the minimum under the maximum on each axis, the clamped
/// extent lies within them for any window size, and clamping it again leaves
/// it unchanged.
pub proof fn lemma_extent_clamp(window: Extent2D, lo: Extent2D, hi: Extent2D)
    requires
        lo.width <= hi.width,
        lo.height <= hi.height,
    ensures
        lo.width <= clamp_extent(window, lo, hi).width <= hi.width,
        lo.height <= clamp_extent(window, lo, hi).height <= hi.height,
        clamp_extent(clamp_extent(window, lo, hi), lo, hi) == clamp_extent(window, lo, hi),
{
}

/// Rebuilding the swapchain for the same surface and an unchanged window size
/// plans the same configuration as before, and leaves every swapchain image
/// of the new count out of flight.
pub proof fn lemma_recreation_round_trip(
    caps: SurfaceCapabilities,
    formats: Seq<SurfaceFormat>,
    present_modes: Seq<i32>,
    window: Extent2D,
    indices: QueueFamilyIndices,
    first: SwapchainConfig,
    rebuilt: SwapchainConfig,
    before: FrameSyncView,
    after: FrameSyncView,
)
    requires
        config_matches(first, caps, formats, present_modes, window, indices),
        config_matches(rebuilt, caps, formats, present_modes, window, indices),
        after == (FrameSyncView {
            images_in_flight: no_images_in_flight(rebuilt.image_count as nat),
            ..before
        }),
    ensures
        rebuilt.surface_format == first.surface_format,
        rebuilt.extent == first.extent,
        rebuilt.present_mode == first.present_mode,
        rebuilt.image_count == first.image_count,
        after.images_in_flight.len() == first.image_count,
        forall|i: int| 0 <= i < after.images_in_flight.len() ==> #[trigger] after.images_in_flight[i]
            is None,
{
}

} // verus!
