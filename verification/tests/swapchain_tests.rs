use ash::vk;
use rey_engine::error::SwapchainError;
use rey_engine::swapchain::{
    compute_extent, compute_image_count, plan_swapchain, select_present_mode, select_surface_format, Extent2D,
    SurfaceCapabilities, SurfaceFormat, COLOR_SPACE_SRGB_NONLINEAR, FORMAT_B8G8R8A8_SRGB, PRESENT_MODE_FIFO,
    PRESENT_MODE_MAILBOX,
};

fn caps(current: (u32, u32), min: (u32, u32), max: (u32, u32), min_count: u32, max_count: u32) -> SurfaceCapabilities {
    SurfaceCapabilities {
        min_image_count: min_count,
        max_image_count: max_count,
        current_extent: Extent2D { width: current.0, height: current.1 },
        min_image_extent: Extent2D { width: min.0, height: min.1 },
        max_image_extent: Extent2D { width: max.0, height: max.1 },
        current_transform: 1,
    }
}

const UNORM: SurfaceFormat = SurfaceFormat { format: 44, color_space: 0 };
const SRGB: SurfaceFormat = SurfaceFormat { format: FORMAT_B8G8R8A8_SRGB, color_space: COLOR_SPACE_SRGB_NONLINEAR };

#[test]
fn constants_match_vulkan() {
    assert_eq!(vk::Format::B8G8R8A8_SRGB.as_raw(), FORMAT_B8G8R8A8_SRGB);
    assert_eq!(vk::ColorSpaceKHR::SRGB_NONLINEAR.as_raw(), COLOR_SPACE_SRGB_NONLINEAR);
    assert_eq!(vk::PresentModeKHR::MAILBOX.as_raw(), PRESENT_MODE_MAILBOX);
    assert_eq!(vk::PresentModeKHR::FIFO.as_raw(), PRESENT_MODE_FIFO);
    assert_eq!(vk::Format::B8G8R8A8_UNORM.as_raw(), UNORM.format);
}

#[test]
fn preferred_format_wins_wherever_it_is() {
    assert_eq!(select_surface_format(&vec![UNORM, SRGB]), Some(SRGB));
    assert_eq!(select_surface_format(&vec![SRGB, UNORM]), Some(SRGB));
}

#[test]
fn first_format_is_the_fallback() {
    let other = SurfaceFormat { format: FORMAT_B8G8R8A8_SRGB, color_space: 1000104001 };
    assert_eq!(select_surface_format(&vec![other, UNORM]), Some(other));
    assert_eq!(select_surface_format(&vec![]), None);
}

#[test]
fn mailbox_preferred_else_fifo() {
    assert_eq!(select_present_mode(&vec![0, 2, 1]), PRESENT_MODE_MAILBOX);
    assert_eq!(select_present_mode(&vec![0, 2, 3]), PRESENT_MODE_FIFO);
    assert_eq!(select_present_mode(&vec![]), PRESENT_MODE_FIFO);
}

#[test]
fn current_extent_is_kept() {
    let c = caps((800, 600), (1, 1), (4096, 4096), 2, 8);
    assert_eq!(compute_extent(&c, (1280, 720)), Extent2D { width: 800, height: 600 });
}

#[test]
fn requested_extent_is_clamped() {
    let c = caps((u32::MAX, u32::MAX), (100, 100), (1000, 500), 2, 8);
    assert_eq!(compute_extent(&c, (1280, 720)), Extent2D { width: 1000, height: 500 });
    assert_eq!(compute_extent(&c, (50, 300)), Extent2D { width: 100, height: 300 });
}

#[test]
fn image_count_is_one_more_than_minimum_within_maximum() {
    assert_eq!(compute_image_count(&caps((1, 1), (1, 1), (1, 1), 2, 8)), 3);
    assert_eq!(compute_image_count(&caps((1, 1), (1, 1), (1, 1), 3, 3)), 3);
    assert_eq!(compute_image_count(&caps((1, 1), (1, 1), (1, 1), 2, 0)), 3);
    assert_eq!(compute_image_count(&caps((1, 1), (1, 1), (1, 1), 0, 0)), 1);
}

#[test]
fn plan_combines_the_choices() {
    let c = caps((u32::MAX, u32::MAX), (1, 1), (1920, 1080), 2, 0);
    let plan = plan_swapchain(&c, &vec![UNORM, SRGB], &vec![2, 1], 1280, 720).unwrap();
    assert_eq!(plan.format, SRGB);
    assert_eq!(plan.present_mode, PRESENT_MODE_MAILBOX);
    assert_eq!(plan.extent, Extent2D { width: 1280, height: 720 });
    assert_eq!(plan.image_count, 3);
    assert_eq!(plan.pre_transform, 1);
}

#[test]
fn plan_without_formats_fails() {
    let c = caps((640, 480), (1, 1), (1920, 1080), 2, 0);
    match plan_swapchain(&c, &vec![], &vec![2], 1280, 720) {
        Err(SwapchainError::NoFormatsAvailable) => {}
        other => panic!("unexpected {:?}", other),
    }
}
