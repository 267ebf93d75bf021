use bort_vk::{
    decimal_string, ImageAccessError, ImageDimensions, InstanceError, MemoryError, PodCastFailure,
    SurfaceCreationError,
};

#[test]
fn decimal_string_writes_like_display() {
    assert_eq!(decimal_string(0), "0");
    assert_eq!(decimal_string(7), "7");
    assert_eq!(decimal_string(10), "10");
    assert_eq!(decimal_string(4096), "4096");
    assert_eq!(decimal_string(u64::MAX), u64::MAX.to_string());
    for n in [1u64, 9, 99, 100, 101, 65535, 1 << 40] {
        assert_eq!(decimal_string(n), n.to_string());
    }
}

#[test]
fn memory_error_size_messages() {
    let e = MemoryError::DataSizeTooBig { data_size: 300, allocation_size: 256, allocation_offset: 8 };
    assert_eq!(
        e.message(),
        "invalid data size access parameters: data size = 300, allocation size = 256, write offset = 8"
    );
    let e = MemoryError::AllocationOffsetTooBig { allocation_size: 64, allocation_offset: 65 };
    assert_eq!(e.message(), "allocation offset 65 is larger than the allocated memory 64");
}

#[test]
fn memory_error_vulkan_messages() {
    assert_eq!(
        MemoryError::Mapping(-1).message(),
        "failed map allocation memory: A host memory allocation has failed"
    );
    assert_eq!(
        MemoryError::Flushing(-2).message(),
        format!("failed to flush memory: {}", ash::vk::Result::ERROR_OUT_OF_DEVICE_MEMORY)
    );
    assert_eq!(
        MemoryError::Mapping(-5).message(),
        "failed map allocation memory: Mapping of a memory object has failed"
    );
}

#[test]
fn memory_error_pod_cast_message() {
    let e = MemoryError::from_pod_cast_error(PodCastFailure::SizeMismatch);
    assert_eq!(e, MemoryError::PodCastError(PodCastFailure::SizeMismatch));
    assert_eq!(e.message(), "slice cast failed: SizeMismatch");
    for (ours, outside) in [
        (
            PodCastFailure::TargetAlignmentGreaterAndInputNotAligned,
            bytemuck::PodCastError::TargetAlignmentGreaterAndInputNotAligned,
        ),
        (PodCastFailure::OutputSliceWouldHaveSlop, bytemuck::PodCastError::OutputSliceWouldHaveSlop),
        (PodCastFailure::SizeMismatch, bytemuck::PodCastError::SizeMismatch),
        (PodCastFailure::AlignmentMismatch, bytemuck::PodCastError::AlignmentMismatch),
    ] {
        assert_eq!(
            MemoryError::from_pod_cast_error(ours).message(),
            format!("slice cast failed: {}", outside)
        );
    }
}

#[test]
fn instance_error_messages() {
    assert_eq!(
        InstanceError::UnsupportedRawDisplayHandle.message(),
        "unsupported display handle. could not determine the required surface extensions for this window system"
    );
    assert_eq!(
        InstanceError::Creation(-9).message(),
        "failed to create device Unable to find a Vulkan driver"
    );
    let missing = vec![b"VK_KHR_surface".to_vec(), b"VK_EXT_debug_utils".to_vec()];
    assert_eq!(
        InstanceError::ExtensionsNotPresent(missing).message(),
        r#"the following extensions were reqested but are not present: ["VK_KHR_surface", "VK_EXT_debug_utils"]"#
    );
    assert_eq!(
        InstanceError::ExtensionsNotPresent(Vec::new()).message(),
        "the following extensions were reqested but are not present: []"
    );
}

#[test]
fn instance_error_escapes_unusual_bytes() {
    let odd = vec![b"a\"b\\c\x01\t'\xff".to_vec()];
    assert_eq!(
        InstanceError::ExtensionsNotPresent(odd).message(),
        r#"the following extensions were reqested but are not present: ["a\"b\\c\x01\t\'\xff"]"#
    );
}

#[test]
fn surface_creation_error_messages() {
    assert_eq!(
        SurfaceCreationError::VkResult(-3).message(),
        ash::vk::Result::ERROR_INITIALIZATION_FAILED.to_string()
    );
    assert_eq!(
        SurfaceCreationError::NoXcbConnectionPointer.message(),
        "the XCB display handle is missing a valid xcb_connection_t* pointer which is required\n                to create a surface"
    );
    assert_eq!(
        SurfaceCreationError::NoXlibDisplayPointer.message(),
        "the X11 display handle is missing a valid Display* pointer which is required\n                to create a surface"
    );
    assert_eq!(
        SurfaceCreationError::NoWin32HINSTANCE.message(),
        "the Win32 window handle is missing a valid HINSTANCE which is required\n                to create a surface"
    );
    assert_eq!(
        SurfaceCreationError::UnsupportedDisplaySystem().message(),
        "the display and window handles represent a windowing system that is currently unsupported."
    );
}

#[test]
fn image_dimensions_debug_string_matches_debug() {
    for d in [
        ImageDimensions::Dim1d { width: 16, array_layers: 1 },
        ImageDimensions::Dim2d { width: 1920, height: 1080, array_layers: 6 },
        ImageDimensions::Dim3d { width: 4, height: 5, depth: 4294967295 },
    ] {
        assert_eq!(d.debug_string(), format!("{:?}", d));
    }
}

#[test]
fn image_access_error_messages() {
    let requested = ImageDimensions::Dim1d { width: 4, array_layers: 1 };
    let image = ImageDimensions::Dim2d { width: 8, height: 8, array_layers: 1 };
    let e = ImageAccessError::IncompatibleDimensions {
        requested_coordinates: requested,
        image_dimensions: image,
    };
    assert_eq!(
        e.message(),
        "incompatible coordinate/dimension types: requested coordinates = Dim1d { width: 4, array_layers: 1 }, image dimensions = Dim2d { width: 8, height: 8, array_layers: 1 }"
    );
    let e = ImageAccessError::InvalidDimensions { requested_coordinates: image, image_dimensions: image };
    assert_eq!(
        e.message(),
        "invalid coordinates/dimensions: requested coordinates = Dim2d { width: 8, height: 8, array_layers: 1 }, image dimensions = Dim2d { width: 8, height: 8, array_layers: 1 }"
    );
    let inner = MemoryError::AllocationOffsetTooBig { allocation_size: 1, allocation_offset: 2 };
    assert_eq!(ImageAccessError::MemoryError(inner).message(), inner.message());
}
