use ash::vk;
use bort_vk::image_dimensions::{IMAGE_VIEW_TYPE_2D, IMAGE_VIEW_TYPE_2D_ARRAY};
use bort_vk::swapchain::{
    COMPOSITE_ALPHA_INHERIT, COMPOSITE_ALPHA_OPAQUE, COMPOSITE_ALPHA_POST_MULTIPLIED,
    COMPOSITE_ALPHA_PRE_MULTIPLIED, PRESENT_MODE_FIFO, PRESENT_MODE_MAILBOX,
    SURFACE_TRANSFORM_IDENTITY,
};
use bort_vk::{
    check_surface_handles, surface_platform, DisplaySystem, SurfaceCreationError, SurfacePlatform, TargetOs, WindowSystem,
};
use bort_vk::{
    choose_composite_alpha, get_first_linear_surface_format, get_first_srgb_surface_format,
    Extent2D, ImageDimensions, SurfaceCapabilities, SurfaceFormat, SwapchainProperties,
};

fn sf(format: vk::Format) -> SurfaceFormat {
    SurfaceFormat { format: format.as_raw(), color_space: 0 }
}

fn caps(min: u32, max: u32, current: (u32, u32)) -> SurfaceCapabilities {
    SurfaceCapabilities {
        min_image_count: min,
        max_image_count: max,
        current_extent: Extent2D { width: current.0, height: current.1 },
        min_image_extent: Extent2D { width: 1, height: 1 },
        max_image_extent: Extent2D { width: 4096, height: 4096 },
        max_image_array_layers: 1,
        supported_transforms: SURFACE_TRANSFORM_IDENTITY | 2,
        current_transform: 2,
        supported_composite_alpha: COMPOSITE_ALPHA_OPAQUE,
        supported_usage_flags: 0x10,
    }
}

#[test]
fn first_srgb_and_linear_formats() {
    let formats = vec![
        sf(vk::Format::B8G8R8A8_UNORM),
        sf(vk::Format::B8G8R8A8_SRGB),
        sf(vk::Format::R8G8B8A8_SRGB),
    ];
    assert_eq!(get_first_srgb_surface_format(&formats), Some(sf(vk::Format::B8G8R8A8_SRGB)));
    assert_eq!(get_first_linear_surface_format(&formats), Some(sf(vk::Format::B8G8R8A8_UNORM)));
    let only_srgb = vec![sf(vk::Format::R8G8B8A8_SRGB)];
    assert_eq!(get_first_linear_surface_format(&only_srgb), None);
    assert_eq!(get_first_srgb_surface_format(&Vec::new()), None);
}

#[test]
fn new_default_clamps_and_prefers() {
    let c = caps(2, 3, (800, 600));
    let p = SwapchainProperties::new_default(
        &c,
        &vec![PRESENT_MODE_FIFO, PRESENT_MODE_MAILBOX],
        5,
        sf(vk::Format::B8G8R8A8_SRGB),
        COMPOSITE_ALPHA_OPAQUE,
        0x10,
        [1024, 768],
    );
    assert_eq!(p.image_count, 3);
    assert_eq!(p.present_mode, PRESENT_MODE_MAILBOX);
    assert_eq!(p.pre_transform, SURFACE_TRANSFORM_IDENTITY);
    assert_eq!(p.width_height, [800, 600]);
    assert_eq!(p.array_layers, 1);
    assert!(p.clipping_enabled);
    assert_eq!(p.sharing_mode, 0);
    assert_eq!(p.surface_format, sf(vk::Format::B8G8R8A8_SRGB));
    assert_eq!(p.image_usage, 0x10);
    assert_eq!(p.composite_alpha, COMPOSITE_ALPHA_OPAQUE);
    assert!(p.queue_family_indices.is_empty());
}

#[test]
fn new_default_other_branches() {
    let mut c = caps(2, 0, (u32::MAX, u32::MAX));
    c.supported_transforms = 2;
    let p = SwapchainProperties::new_default(&c, &vec![PRESENT_MODE_FIFO], 1, sf(vk::Format::UNDEFINED), 0, 0, [1024, 768]);
    // no maximum: the preferred count is still raised to the minimum
    assert_eq!(p.image_count, 2);
    assert_eq!(p.present_mode, PRESENT_MODE_FIFO);
    assert_eq!(p.pre_transform, 2);
    assert_eq!(p.width_height, [1024, 768]);

    let c = caps(3, 8, (10, 10));
    let p = SwapchainProperties::new_default(&c, &vec![], 1, sf(vk::Format::UNDEFINED), 0, 0, [1, 1]);
    assert_eq!(p.image_count, 3);
    assert_eq!(p.present_mode, PRESENT_MODE_FIFO);

    let c = caps(2, 0, (10, 10));
    let p = SwapchainProperties::new_default(&c, &vec![], 7, sf(vk::Format::UNDEFINED), 0, 0, [1, 1]);
    assert_eq!(p.image_count, 7);
}

#[test]
fn swapchain_defaults_dimensions_and_views() {
    let mut p = SwapchainProperties::default();
    assert_eq!(p.image_count, 1);
    assert_eq!(p.present_mode, PRESENT_MODE_MAILBOX);
    assert_eq!(p.width_height, [1, 1]);
    p.width_height = [640, 480];
    p.array_layers = 2;
    p.surface_format = sf(vk::Format::B8G8R8A8_SRGB);
    assert_eq!(p.dimensions(), ImageDimensions::new_2d(640, 480));
    let v = p.image_view_properties();
    assert_eq!(v.view_type, IMAGE_VIEW_TYPE_2D_ARRAY);
    assert_eq!(v.subresource_range.layer_count, 2);
    assert_eq!(v.format, vk::Format::B8G8R8A8_SRGB.as_raw());
    p.array_layers = 1;
    assert_eq!(p.image_view_properties().view_type, IMAGE_VIEW_TYPE_2D);
}

#[test]
fn composite_alpha_preference_order() {
    let mut c = caps(1, 1, (1, 1));
    c.supported_composite_alpha = COMPOSITE_ALPHA_OPAQUE | COMPOSITE_ALPHA_POST_MULTIPLIED;
    assert_eq!(choose_composite_alpha(c), COMPOSITE_ALPHA_POST_MULTIPLIED);
    c.supported_composite_alpha = COMPOSITE_ALPHA_OPAQUE | COMPOSITE_ALPHA_PRE_MULTIPLIED;
    assert_eq!(choose_composite_alpha(c), COMPOSITE_ALPHA_OPAQUE);
    c.supported_composite_alpha = COMPOSITE_ALPHA_PRE_MULTIPLIED | COMPOSITE_ALPHA_INHERIT;
    assert_eq!(choose_composite_alpha(c), COMPOSITE_ALPHA_PRE_MULTIPLIED);
    c.supported_composite_alpha = COMPOSITE_ALPHA_INHERIT;
    assert_eq!(choose_composite_alpha(c), COMPOSITE_ALPHA_INHERIT);
    assert_eq!(COMPOSITE_ALPHA_POST_MULTIPLIED, vk::CompositeAlphaFlagsKHR::POST_MULTIPLIED.as_raw());
    assert_eq!(PRESENT_MODE_MAILBOX, vk::PresentModeKHR::MAILBOX.as_raw());
}

#[test]
fn surface_platforms_pair_display_and_window() {
    let other = TargetOs::Other;
    assert_eq!(surface_platform(DisplaySystem::Xcb, WindowSystem::Xcb, other).unwrap(), SurfacePlatform::Xcb);
    assert_eq!(
        surface_platform(DisplaySystem::Windows, WindowSystem::Win32, other).unwrap(),
        SurfacePlatform::Win32
    );
    assert_eq!(
        surface_platform(DisplaySystem::AppKit, WindowSystem::AppKit, TargetOs::MacOs).unwrap(),
        SurfacePlatform::MetalAppKit
    );
    assert_eq!(
        surface_platform(DisplaySystem::UiKit, WindowSystem::UiKit, TargetOs::Ios).unwrap(),
        SurfacePlatform::MetalUiKit
    );
    assert!(matches!(
        surface_platform(DisplaySystem::AppKit, WindowSystem::AppKit, other),
        Err(SurfaceCreationError::UnsupportedDisplaySystem())
    ));
    assert!(matches!(
        surface_platform(DisplaySystem::UiKit, WindowSystem::UiKit, TargetOs::MacOs),
        Err(SurfaceCreationError::UnsupportedDisplaySystem())
    ));
    assert!(matches!(
        surface_platform(DisplaySystem::Xlib, WindowSystem::Wayland, other),
        Err(SurfaceCreationError::UnsupportedDisplaySystem())
    ));
    assert!(matches!(
        surface_platform(DisplaySystem::Other, WindowSystem::Other, other),
        Err(SurfaceCreationError::UnsupportedDisplaySystem())
    ));
}

#[test]
fn surface_handles_need_their_platform_pointers() {
    assert_eq!(check_surface_handles(SurfacePlatform::Win32, true, false, false), Ok(()));
    assert_eq!(
        check_surface_handles(SurfacePlatform::Win32, false, true, true),
        Err(SurfaceCreationError::NoWin32HINSTANCE)
    );
    assert_eq!(
        check_surface_handles(SurfacePlatform::Xlib, true, false, true),
        Err(SurfaceCreationError::NoXlibDisplayPointer)
    );
    assert_eq!(check_surface_handles(SurfacePlatform::Xlib, false, true, false), Ok(()));
    assert_eq!(
        check_surface_handles(SurfacePlatform::Xcb, true, true, false),
        Err(SurfaceCreationError::NoXcbConnectionPointer)
    );
    assert_eq!(check_surface_handles(SurfacePlatform::Xcb, false, false, true), Ok(()));
    assert_eq!(check_surface_handles(SurfacePlatform::Wayland, false, false, false), Ok(()));
    assert_eq!(check_surface_handles(SurfacePlatform::Android, false, false, false), Ok(()));
}
