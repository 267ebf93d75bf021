use bort_vk::memory::{
    MEMORY_PROPERTY_DEVICE_LOCAL, MEMORY_PROPERTY_HOST_COHERENT, MEMORY_PROPERTY_HOST_VISIBLE,
    MEMORY_PROPERTY_LAZILY_ALLOCATED,
};
use bort_vk::properties::IMAGE_USAGE_TRANSIENT_ATTACHMENT;
use bort_vk::{
    allocation_info_cpu_accessible, allocation_info_from_flags, check_memory_access_parameters,
    transient_image_info, AllocationCreateInfo, ImageDimensions, MemoryError, MemoryUsage,
};

#[test]
fn access_within_bounds_is_ok() {
    assert!(check_memory_access_parameters(1024, 1024, 0).is_ok());
    assert!(check_memory_access_parameters(1024, 24, 1000).is_ok());
    assert!(check_memory_access_parameters(1024, 0, 1024).is_ok());
}

#[test]
fn offset_too_big() {
    match check_memory_access_parameters(1024, 0, 1025) {
        Err(MemoryError::AllocationOffsetTooBig { allocation_size, allocation_offset }) => {
            assert_eq!((allocation_size, allocation_offset), (1024, 1025));
        }
        other => panic!("unexpected {:?}", other),
    }
}

#[test]
fn data_too_big() {
    match check_memory_access_parameters(1024, 25, 1000) {
        Err(MemoryError::DataSizeTooBig { data_size, allocation_size, allocation_offset }) => {
            assert_eq!((data_size, allocation_size, allocation_offset), (25, 1024, 1000));
        }
        other => panic!("unexpected {:?}", other),
    }
}

#[test]
fn allocation_presets() {
    let a = allocation_info_from_flags(1, 2);
    assert_eq!((a.required_flags, a.preferred_flags, a.flags), (1, 2, 0));
    assert_eq!(a.usage, MemoryUsage::Unknown);
    let c = allocation_info_cpu_accessible();
    assert_eq!(c.required_flags, MEMORY_PROPERTY_HOST_VISIBLE);
    assert_eq!(c.preferred_flags, MEMORY_PROPERTY_HOST_COHERENT);
    assert_eq!(AllocationCreateInfo::default().memory_type_bits, 0);
    assert_eq!(
        MEMORY_PROPERTY_LAZILY_ALLOCATED,
        ash::vk::MemoryPropertyFlags::LAZILY_ALLOCATED.as_raw()
    );
}

#[test]
fn transient_images() {
    let (image, alloc) = transient_image_info(ImageDimensions::new_2d(64, 32), 44, 0x10);
    assert_eq!(image.usage, IMAGE_USAGE_TRANSIENT_ATTACHMENT | 0x10);
    assert_eq!(image.format, 44);
    assert_eq!(image.dimensions, ImageDimensions::new_2d(64, 32));
    assert_eq!(image.mip_levels, 1);
    assert_eq!(alloc.required_flags, MEMORY_PROPERTY_DEVICE_LOCAL);
    assert_eq!(alloc.preferred_flags, MEMORY_PROPERTY_LAZILY_ALLOCATED);
    assert_eq!(
        IMAGE_USAGE_TRANSIENT_ATTACHMENT,
        ash::vk::ImageUsageFlags::TRANSIENT_ATTACHMENT.as_raw()
    );
}
