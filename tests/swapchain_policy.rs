use quad_renderer::queue::QueueFamilyIndices;
use quad_renderer::swapchain::{
    choose_image_count, choose_sharing, get_swapchain_extent, get_swapchain_present_mode,
    get_swapchain_surface_format, plan_swapchain, Extent2D, SharingMode, SurfaceCapabilities,
    SurfaceFormat, SwapchainError, SwapchainSupport, COLOR_SPACE_SRGB_NONLINEAR,
    EXTENT_FROM_WINDOW, FORMAT_B8G8R8A8_SRGB, PRESENT_MODE_FIFO, PRESENT_MODE_MAILBOX,
};

const FORMAT_R8G8B8A8_UNORM: i32 = 37;
const PRESENT_MODE_IMMEDIATE: i32 = 0;

fn bgra_srgb() -> SurfaceFormat {
    SurfaceFormat { format: FORMAT_B8G8R8A8_SRGB, color_space: COLOR_SPACE_SRGB_NONLINEAR }
}

fn extent(width: u32, height: u32) -> Extent2D {
    Extent2D { width, height }
}

fn window_sized_caps(min_count: u32, max_count: u32) -> SurfaceCapabilities {
    SurfaceCapabilities {
        min_image_count: min_count,
        max_image_count: max_count,
        current_extent: extent(EXTENT_FROM_WINDOW, EXTENT_FROM_WINDOW),
        min_image_extent: extent(1, 1),
        max_image_extent: extent(4096, 4096),
    }
}

#[test]
fn image_count_unbounded_is_min_plus_one() {
    assert_eq!(choose_image_count(2, 0), 3);
    assert_eq!(choose_image_count(1, 0), 2);
}

#[test]
fn image_count_bounded_stays_within_max() {
    assert_eq!(choose_image_count(2, 8), 3);
    assert_eq!(choose_image_count(2, 3), 3);
    // a maximum equal to the minimum caps the count at the minimum
    assert_eq!(choose_image_count(3, 3), 3);
    // the largest minimum is fine where a maximum is set
    assert_eq!(choose_image_count(u32::MAX, 5), 5);
    assert_eq!(choose_image_count(u32::MAX, u32::MAX), u32::MAX);
}

#[test]
fn image_count_bounds_hold_over_a_range() {
    for min in 1u32..6 {
        for max in 0u32..10 {
            if max != 0 && max <= min {
                continue;
            }
            let c = choose_image_count(min, max);
            if max == 0 {
                assert_eq!(c, min + 1);
            } else {
                assert!(min < c && c <= max.max(min));
            }
        }
    }
}

#[test]
fn surface_format_prefers_bgra_srgb_anywhere_in_list() {
    let other = SurfaceFormat { format: FORMAT_R8G8B8A8_UNORM, color_space: COLOR_SPACE_SRGB_NONLINEAR };
    let formats = vec![other, bgra_srgb()];
    let chosen = get_swapchain_surface_format(&formats);
    assert_eq!(chosen, bgra_srgb());
    // choosing again from the same list gives the same entry
    assert_eq!(get_swapchain_surface_format(&formats), chosen);
}

#[test]
fn surface_format_falls_back_to_first() {
    let a = SurfaceFormat { format: FORMAT_R8G8B8A8_UNORM, color_space: COLOR_SPACE_SRGB_NONLINEAR };
    let b = SurfaceFormat { format: FORMAT_B8G8R8A8_SRGB, color_space: 1000104002 };
    let formats = vec![a, b];
    assert_eq!(get_swapchain_surface_format(&formats), a);
}

#[test]
fn present_mode_prefers_mailbox() {
    assert_eq!(get_swapchain_present_mode(&vec![PRESENT_MODE_FIFO, PRESENT_MODE_MAILBOX]), PRESENT_MODE_MAILBOX);
    assert_eq!(get_swapchain_present_mode(&vec![PRESENT_MODE_IMMEDIATE, PRESENT_MODE_MAILBOX]), PRESENT_MODE_MAILBOX);
}

#[test]
fn present_mode_falls_back_to_fifo() {
    assert_eq!(get_swapchain_present_mode(&vec![PRESENT_MODE_FIFO]), PRESENT_MODE_FIFO);
    assert_eq!(get_swapchain_present_mode(&vec![PRESENT_MODE_IMMEDIATE]), PRESENT_MODE_FIFO);
    assert_eq!(get_swapchain_present_mode(&vec![]), PRESENT_MODE_FIFO);
}

#[test]
fn extent_uses_surface_extent_when_fixed() {
    let mut caps = window_sized_caps(2, 0);
    caps.current_extent = extent(800, 600);
    assert_eq!(get_swapchain_extent(extent(1024, 768), &caps), extent(800, 600));
}

#[test]
fn extent_clamps_window_size_per_axis() {
    let mut caps = window_sized_caps(2, 0);
    caps.min_image_extent = extent(100, 200);
    caps.max_image_extent = extent(1000, 700);
    assert_eq!(get_swapchain_extent(extent(5000, 10), &caps), extent(1000, 200));
    assert_eq!(get_swapchain_extent(extent(50, 5000), &caps), extent(100, 700));
    assert_eq!(get_swapchain_extent(extent(500, 300), &caps), extent(500, 300));
}

#[test]
fn extent_clamp_is_idempotent() {
    let mut caps = window_sized_caps(2, 0);
    caps.min_image_extent = extent(100, 200);
    caps.max_image_extent = extent(1000, 700);
    for w in [0u32, 99, 100, 640, 1000, 1001, u32::MAX - 1] {
        for h in [0u32, 199, 200, 480, 700, 701] {
            let once = get_swapchain_extent(extent(w, h), &caps);
            let twice = get_swapchain_extent(once, &caps);
            assert_eq!(once, twice);
            assert!(100 <= once.width && once.width <= 1000);
            assert!(200 <= once.height && once.height <= 700);
        }
    }
}

#[test]
fn sharing_is_concurrent_for_distinct_families() {
    let (mode, families) = choose_sharing(&QueueFamilyIndices { graphics: 0, presentation: 2 });
    assert_eq!(mode, SharingMode::Concurrent);
    assert_eq!(families, vec![0, 2]);
}

#[test]
fn sharing_is_exclusive_for_one_family() {
    let (mode, families) = choose_sharing(&QueueFamilyIndices { graphics: 1, presentation: 1 });
    assert_eq!(mode, SharingMode::Exclusive);
    assert!(families.is_empty());
}

#[test]
fn plan_for_1024_by_768_window() {
    let support = SwapchainSupport {
        capabilities: window_sized_caps(2, 0),
        formats: vec![bgra_srgb()],
        present_modes: vec![PRESENT_MODE_FIFO],
    };
    let indices = QueueFamilyIndices { graphics: 0, presentation: 0 };
    let config = plan_swapchain(&support, extent(1024, 768), &indices).unwrap();
    assert_eq!(config.image_count, 3);
    assert_eq!(config.surface_format, bgra_srgb());
    assert_eq!(config.present_mode, PRESENT_MODE_FIFO);
    assert_eq!(config.extent, extent(1024, 768));
    assert_eq!(config.sharing_mode, SharingMode::Exclusive);
}

#[test]
fn plan_rejects_surface_without_formats() {
    let support = SwapchainSupport {
        capabilities: window_sized_caps(2, 0),
        formats: vec![],
        present_modes: vec![PRESENT_MODE_FIFO],
    };
    let indices = QueueFamilyIndices { graphics: 0, presentation: 0 };
    assert_eq!(plan_swapchain(&support, extent(1024, 768), &indices).unwrap_err(), SwapchainError::NoSurfaceFormats);
}

#[test]
fn plan_rejects_surface_without_present_modes() {
    let support = SwapchainSupport {
        capabilities: window_sized_caps(2, 0),
        formats: vec![bgra_srgb()],
        present_modes: vec![],
    };
    let indices = QueueFamilyIndices { graphics: 0, presentation: 0 };
    assert_eq!(plan_swapchain(&support, extent(1024, 768), &indices).unwrap_err(), SwapchainError::NoPresentModes);
}

#[test]
fn plan_is_the_same_when_recreated_with_unchanged_window() {
    let support = SwapchainSupport {
        capabilities: window_sized_caps(2, 3),
        formats: vec![SurfaceFormat { format: FORMAT_R8G8B8A8_UNORM, color_space: 0 }, bgra_srgb()],
        present_modes: vec![PRESENT_MODE_FIFO, PRESENT_MODE_MAILBOX],
    };
    let indices = QueueFamilyIndices { graphics: 0, presentation: 1 };
    let first = plan_swapchain(&support, extent(640, 480), &indices).unwrap();
    let again = plan_swapchain(&support, extent(640, 480), &indices).unwrap();
    assert_eq!(first.surface_format, again.surface_format);
    assert_eq!(first.extent, again.extent);
    assert_eq!(first.image_count, again.image_count);
    assert_eq!(first.present_mode, PRESENT_MODE_MAILBOX);
    assert_eq!(again.queue_family_indices, vec![0, 1]);
}
