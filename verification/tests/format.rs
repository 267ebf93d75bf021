use bort_vk::format::{
    FORMAT_D16_UNORM, FORMAT_D24_UNORM_S8_UINT, FORMAT_D32_SFLOAT, FORMAT_D32_SFLOAT_S8_UINT,
    FORMAT_FEATURE_DEPTH_STENCIL_ATTACHMENT, FORMAT_S8_UINT, FORMAT_X8_D24_UNORM_PACK32,
    IMAGE_ASPECT_COLOR, IMAGE_ASPECT_DEPTH, IMAGE_ASPECT_STENCIL,
};
use bort_vk::{
    aspect_mask_from_format, depth_stencil_format_from_features, is_format_linear,
    is_format_srgb, pure_depth_format_from_features,
};
use ash::vk;

#[test]
fn srgb_formats_are_recognised_by_name() {
    assert!(is_format_srgb(vk::Format::R8G8B8A8_SRGB.as_raw()));
    assert!(is_format_srgb(vk::Format::B8G8R8A8_SRGB.as_raw()));
    assert!(is_format_srgb(vk::Format::BC7_SRGB_BLOCK.as_raw()));
    assert!(!is_format_srgb(vk::Format::R8G8B8A8_UNORM.as_raw()));
    assert!(!is_format_srgb(vk::Format::UNDEFINED.as_raw()));
    // an unknown value formats as a number, which holds no "SRGB"
    assert!(!is_format_srgb(987654));
}

#[test]
fn linear_is_not_srgb() {
    assert!(is_format_linear(vk::Format::B8G8R8A8_UNORM.as_raw()));
    assert!(!is_format_linear(vk::Format::B8G8R8A8_SRGB.as_raw()));
}

#[test]
fn aspect_masks() {
    assert_eq!(aspect_mask_from_format(vk::Format::R8G8B8A8_UNORM.as_raw()), IMAGE_ASPECT_COLOR);
    assert_eq!(aspect_mask_from_format(FORMAT_D16_UNORM), IMAGE_ASPECT_DEPTH);
    assert_eq!(aspect_mask_from_format(FORMAT_X8_D24_UNORM_PACK32), IMAGE_ASPECT_DEPTH);
    assert_eq!(aspect_mask_from_format(FORMAT_D32_SFLOAT), IMAGE_ASPECT_DEPTH);
    assert_eq!(aspect_mask_from_format(FORMAT_S8_UINT), IMAGE_ASPECT_STENCIL);
    assert_eq!(
        aspect_mask_from_format(FORMAT_D24_UNORM_S8_UINT),
        IMAGE_ASPECT_DEPTH | IMAGE_ASPECT_STENCIL
    );
    assert_eq!(
        aspect_mask_from_format(FORMAT_D32_SFLOAT_S8_UINT),
        vk::ImageAspectFlags::DEPTH.as_raw() | vk::ImageAspectFlags::STENCIL.as_raw()
    );
}

#[test]
fn format_constants_match_vulkan() {
    assert_eq!(FORMAT_D24_UNORM_S8_UINT, vk::Format::D24_UNORM_S8_UINT.as_raw());
    assert_eq!(FORMAT_S8_UINT, vk::Format::S8_UINT.as_raw());
    assert_eq!(
        FORMAT_FEATURE_DEPTH_STENCIL_ATTACHMENT,
        vk::FormatFeatureFlags::DEPTH_STENCIL_ATTACHMENT.as_raw()
    );
}

#[test]
fn depth_format_choices() {
    let ds = FORMAT_FEATURE_DEPTH_STENCIL_ATTACHMENT;
    assert_eq!(depth_stencil_format_from_features(ds | 1), FORMAT_D24_UNORM_S8_UINT);
    assert_eq!(depth_stencil_format_from_features(1), FORMAT_D32_SFLOAT_S8_UINT);
    assert_eq!(pure_depth_format_from_features(ds), FORMAT_D32_SFLOAT);
    assert_eq!(pure_depth_format_from_features(0), FORMAT_X8_D24_UNORM_PACK32);
}
