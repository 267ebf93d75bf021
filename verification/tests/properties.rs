use bort_vk::format::{IMAGE_ASPECT_COLOR, IMAGE_ASPECT_DEPTH, IMAGE_ASPECT_STENCIL};
use bort_vk::image_dimensions::IMAGE_VIEW_TYPE_2D_ARRAY;
use bort_vk::{
    default_component_mapping, default_subresource_layers, default_subresource_range,
    extent_2d_from_width_height, BufferProperties, CommandPoolProperties, DebugCallbackProperties,
    Extent2D, ImageDimensions, ImageProperties, ImageViewProperties,
};

#[test]
fn image_properties_defaults() {
    let p = ImageProperties::default();
    assert_eq!(p.mip_levels, 1);
    assert_eq!(p.samples, 1);
    assert_eq!(p.dimensions, ImageDimensions::default());
    let p = ImageProperties::new_default(129, ImageDimensions::new_2d_array(8, 8, 3), 0x20);
    let r = p.subresource_range();
    assert_eq!(r.aspect_mask, IMAGE_ASPECT_DEPTH | IMAGE_ASPECT_STENCIL);
    assert_eq!((r.level_count, r.layer_count), (1, 3));
}

#[test]
fn image_view_properties() {
    let d = ImageViewProperties::default();
    assert_eq!(d.component_mapping, default_component_mapping());
    assert_eq!(d.subresource_range, default_subresource_range(IMAGE_ASPECT_COLOR));
    let mut image = ImageProperties::new_default(44, ImageDimensions::new_2d_array(8, 8, 3), 4);
    image.mip_levels = 4;
    let v = ImageViewProperties::from_image_properties_default(&image);
    assert_eq!(v.format, 44);
    assert_eq!(v.view_type, IMAGE_VIEW_TYPE_2D_ARRAY);
    assert_eq!(v.subresource_range.level_count, 4);
    assert_eq!(v.subresource_range.layer_count, 3);
    assert_eq!(v.subresource_range.aspect_mask, IMAGE_ASPECT_COLOR);
    let m = default_component_mapping();
    assert_eq!((m.r, m.g, m.b, m.a), (3, 4, 5, 6));
    assert_eq!(m.r, ash::vk::ComponentSwizzle::R.as_raw());
    let l = default_subresource_layers(IMAGE_ASPECT_STENCIL);
    assert_eq!((l.aspect_mask, l.mip_level, l.base_array_layer, l.layer_count), (4, 0, 0, 1));
}

#[test]
fn buffer_command_pool_debug_properties() {
    let b = BufferProperties::new_default(16 * 1024, 0x80);
    assert_eq!((b.size, b.usage, b.flags, b.sharing_mode), (16384, 0x80, 0, 0));
    assert!(b.queue_family_indices.is_empty());
    assert_eq!(BufferProperties::default().size, 0);
    let c = CommandPoolProperties::new_default(2);
    assert_eq!((c.flags, c.queue_family_index), (0, 2));
    let d = DebugCallbackProperties::default();
    assert_eq!(d.message_severity, 0x1111);
    assert_eq!(d.message_type, 0x7);
    assert_eq!(extent_2d_from_width_height([3, 4]), Extent2D { width: 3, height: 4 });
}
