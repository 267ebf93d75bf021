use bort_vk::command_buffer::{COMMAND_BUFFER_LEVEL_PRIMARY, COMMAND_BUFFER_LEVEL_SECONDARY};
use bort_vk::{
    any_unsupported_extensions, check_executable_command_buffer_levels,
    extension_name_is_in_properties_list, require_extensions_present, required_surface_extensions,
    ApiVersion, CommandError, DeviceFeatureChain, DisplaySystem, InstanceError, SurfaceExtension,
    VmaFunctionRouting,
};

fn names(list: &[&str]) -> Vec<Vec<u8>> {
    list.iter().map(|s| s.as_bytes().to_vec()).collect()
}

#[test]
fn surface_extensions_per_window_system() {
    let cases = [
        (DisplaySystem::Windows, SurfaceExtension::KhrWin32Surface),
        (DisplaySystem::Wayland, SurfaceExtension::KhrWaylandSurface),
        (DisplaySystem::Xlib, SurfaceExtension::KhrXlibSurface),
        (DisplaySystem::Xcb, SurfaceExtension::KhrXcbSurface),
        (DisplaySystem::Android, SurfaceExtension::KhrAndroidSurface),
        (DisplaySystem::AppKit, SurfaceExtension::ExtMetalSurface),
        (DisplaySystem::UiKit, SurfaceExtension::ExtMetalSurface),
    ];
    for (display, platform) in cases {
        assert_eq!(required_surface_extensions(display).unwrap(), [SurfaceExtension::KhrSurface, platform]);
    }
    assert!(matches!(
        required_surface_extensions(DisplaySystem::Other),
        Err(InstanceError::UnsupportedRawDisplayHandle)
    ));
}

#[test]
fn extension_lists() {
    let reported = names(&["VK_KHR_surface", "VK_EXT_debug_utils"]);
    assert!(extension_name_is_in_properties_list(&reported, &b"VK_KHR_surface".to_vec()));
    assert!(!extension_name_is_in_properties_list(&reported, &b"VK_KHR_surfac".to_vec()));
    assert!(!extension_name_is_in_properties_list(&Vec::new(), &b"VK_KHR_surface".to_vec()));
    let requested = names(&["VK_KHR_xcb_surface", "VK_KHR_surface", "VK_KHR_wayland_surface"]);
    assert_eq!(
        any_unsupported_extensions(&reported, requested.clone()),
        names(&["VK_KHR_xcb_surface", "VK_KHR_wayland_surface"])
    );
    match require_extensions_present(&reported, requested) {
        Err(InstanceError::ExtensionsNotPresent(missing)) => {
            assert_eq!(missing, names(&["VK_KHR_xcb_surface", "VK_KHR_wayland_surface"]))
        }
        other => panic!("unexpected {:?}", other),
    }
    let fine = names(&["VK_EXT_debug_utils"]);
    assert_eq!(require_extensions_present(&reported, fine.clone()).unwrap(), fine);
}

#[test]
fn device_feature_chains() {
    let c = DeviceFeatureChain::for_api_version(ApiVersion::V1_0());
    assert!(c.features_1_0_in_create_info && !c.features_2 && !c.features_1_1);
    let c = DeviceFeatureChain::for_api_version(ApiVersion::new(0, 9));
    assert!(c.features_1_0_in_create_info && !c.features_2);
    let c = DeviceFeatureChain::for_api_version(ApiVersion::V1_1());
    assert!(!c.features_1_0_in_create_info && c.features_2 && c.features_1_1);
    assert!(!c.features_1_2 && !c.features_1_3);
    let c = DeviceFeatureChain::for_api_version(ApiVersion::V1_2());
    assert!(c.features_1_1 && c.features_1_2 && !c.features_1_3);
    let c = DeviceFeatureChain::for_api_version(ApiVersion::new(2, 0));
    assert!(c.features_2 && c.features_1_1 && c.features_1_2 && c.features_1_3);
}

#[test]
fn vma_routing() {
    let r = VmaFunctionRouting::for_device(ApiVersion::V1_0(), true, false, true, true);
    assert!(r.warn_vulkan_1_0_extensions);
    assert!(!r.warn_maintenance4);
    assert!(r.get_memory_requirements2_from_extension);
    assert!(!r.bind_memory2_from_extension);
    assert!(r.get_physical_device_properties2_from_extension);
    assert!(r.maintenance4_from_extension);
    let r = VmaFunctionRouting::for_device(ApiVersion::V1_2(), true, true, true, false);
    assert!(!r.warn_vulkan_1_0_extensions && r.warn_maintenance4);
    assert!(!r.get_memory_requirements2_from_extension && !r.maintenance4_from_extension);
    let r = VmaFunctionRouting::for_device(ApiVersion::V1_3(), false, false, false, true);
    assert!(!r.warn_vulkan_1_0_extensions && !r.warn_maintenance4 && !r.maintenance4_from_extension);
}

#[test]
fn executing_command_buffers_needs_secondary_levels() {
    assert_eq!(
        check_executable_command_buffer_levels(&vec![COMMAND_BUFFER_LEVEL_SECONDARY; 3]),
        Ok(())
    );
    assert_eq!(check_executable_command_buffer_levels(&vec![]), Ok(()));
    assert_eq!(
        check_executable_command_buffer_levels(&vec![
            COMMAND_BUFFER_LEVEL_SECONDARY,
            COMMAND_BUFFER_LEVEL_PRIMARY
        ]),
        Err(CommandError::CantExecutePrimaryCommandBuffer)
    );
    assert_eq!(
        CommandError::CantExecutePrimaryCommandBuffer.message(),
        "attempted to call vkCmdExecuteCommands on a primary command buffer"
    );
}
