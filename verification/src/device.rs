use crate::api_version::ApiVersion;
use vstd::prelude::*;

verus! {

/// How the requested device features go into `VkDeviceCreateInfo` for an instance
/// of a given API version.
#[derive(Clone, Copy, Debug, PartialEq, Eq, Structural)]
pub struct DeviceFeatureChain {
    /// The Vulkan 1.0 features go in `pEnabledFeatures` (only for Vulkan 1.0 and
    /// earlier).
    pub features_1_0_in_create_info: bool,
    /// A `VkPhysicalDeviceFeatures2` holding the 1.0 features is chained instead.
    pub features_2: bool,
    /// `VkPhysicalDeviceVulkan11Features` is chained.
    pub features_1_1: bool,
    /// `VkPhysicalDeviceVulkan12Features` is chained.
    pub features_1_2: bool,
    /// `VkPhysicalDeviceVulkan13Features` is chained.
    pub features_1_3: bool,
}

/// `a` is not later than `b`.
pub open spec fn not_later(a: ApiVersion, b: ApiVersion) -> bool {
    !b.earlier_than(a)
}

impl DeviceFeatureChain {
    /// Up to Vulkan 1.0 the 1.0 features go in the create info directly. Later
    /// versions chain a features-2 structure, and the 1.1, 1.2 and 1.3 feature
    /// structures each when the version is at least that one; features of later
    /// versions than the instance's are left out.
    pub fn for_api_version(max_api_version: ApiVersion) -> (r: DeviceFeatureChain)
        ensures
            r.features_1_0_in_create_info == not_later(max_api_version, ApiVersion { major: 1, minor: 0 }),
            r.features_2 == !r.features_1_0_in_create_info,
            r.features_1_1 == (r.features_2 && not_later(ApiVersion { major: 1, minor: 1 }, max_api_version)),
            r.features_1_2 == (r.features_2 && not_later(ApiVersion { major: 1, minor: 2 }, max_api_version)),
            r.features_1_3 == (r.features_2 && not_later(ApiVersion { major: 1, minor: 3 }, max_api_version)),
            r.features_1_0_in_create_info == (max_api_version.major < 1 || (max_api_version.major == 1
                && max_api_version.minor == 0)),
            r.features_1_1 == (max_api_version.major > 1 || (max_api_version.major == 1
                && max_api_version.minor >= 1)),
            r.features_1_2 == (max_api_version.major > 1 || (max_api_version.major == 1
                && max_api_version.minor >= 2)),
            r.features_1_3 == (max_api_version.major > 1 || (max_api_version.major == 1
                && max_api_version.minor >= 3)),
    {
        if max_api_version <= ApiVersion::new(1, 0) {
            DeviceFeatureChain {
                features_1_0_in_create_info: true,
                features_2: false,
                features_1_1: false,
                features_1_2: false,
                features_1_3: false,
            }
        } else {
            DeviceFeatureChain {
                features_1_0_in_create_info: false,
                features_2: true,
                features_1_1: max_api_version >= ApiVersion::new(1, 1),
                features_1_2: max_api_version >= ApiVersion::new(1, 2),
                features_1_3: max_api_version >= ApiVersion::new(1, 3),
            }
        }
    }
}

/// Exactly one way of passing the 1.0 features is used; every instance newer than
/// Vulkan 1.0 is at least 1.1, so the 1.1 features are chained exactly when the
/// features-2 structure is; and a later version's features are only chained with
/// the earlier ones.
pub proof fn lemma_feature_chain_shape(max_api_version: ApiVersion, r: DeviceFeatureChain)
    requires
        r.features_1_0_in_create_info == not_later(max_api_version, ApiVersion { major: 1, minor: 0 }),
        r.features_2 == !r.features_1_0_in_create_info,
        r.features_1_1 == (r.features_2 && not_later(ApiVersion { major: 1, minor: 1 }, max_api_version)),
        r.features_1_2 == (r.features_2 && not_later(ApiVersion { major: 1, minor: 2 }, max_api_version)),
        r.features_1_3 == (r.features_2 && not_later(ApiVersion { major: 1, minor: 3 }, max_api_version)),
    ensures
        r.features_1_0_in_create_info != r.features_2,
        r.features_1_1 == r.features_2,
        r.features_1_3 ==> r.features_1_2,
        r.features_1_2 ==> r.features_1_1,
{
}

/// Which device functions the memory allocator takes from extensions rather
/// than from core Vulkan, and which warnings to give about missing extensions.
#[derive(Clone, Copy, Debug, PartialEq, Eq, Structural)]
pub struct VmaFunctionRouting {
    /// Warn that Vulkan 1.0 needs `KHR_get_memory_requirements2`,
    /// `KHR_bind_memory2` and `KHR_get_physical_device_properties2`.
    pub warn_vulkan_1_0_extensions: bool,
    /// Warn that Vulkan before 1.3 needs `KHR_maintenance4`.
    pub warn_maintenance4: bool,
    /// Memory requirement queries come from `KHR_get_memory_requirements2`.
    pub get_memory_requirements2_from_extension: bool,
    /// Binding functions come from `KHR_bind_memory2`.
    pub bind_memory2_from_extension: bool,
    /// Memory property queries come from `KHR_get_physical_device_properties2`.
    pub get_physical_device_properties2_from_extension: bool,
    /// Device memory requirement queries come from `KHR_maintenance4`.
    pub maintenance4_from_extension: bool,
}

impl VmaFunctionRouting {
    /// For an instance before Vulkan 1.1 the functions that 1.1 made core come
    /// from their extensions when those are enabled; before 1.3 the same holds
    /// for `KHR_maintenance4`. Warnings are given when an extension these versions
    /// need is not enabled.
    pub fn for_device(
        max_api_version: ApiVersion,
        get_memory_requirements2_enabled: bool,
        bind_memory2_enabled: bool,
        get_physical_device_properties2_enabled: bool,
        maintenance4_enabled: bool,
    ) -> (r: VmaFunctionRouting)
        ensures
            ({
                let before_1_1 = max_api_version.earlier_than(ApiVersion { major: 1, minor: 1 });
                let before_1_3 = max_api_version.earlier_than(ApiVersion { major: 1, minor: 3 });
                &&& r.warn_vulkan_1_0_extensions == (before_1_1 && (!get_memory_requirements2_enabled
                    || !bind_memory2_enabled || !get_physical_device_properties2_enabled))
                &&& r.warn_maintenance4 == (before_1_3 && !maintenance4_enabled)
                &&& r.get_memory_requirements2_from_extension == (before_1_1
                    && get_memory_requirements2_enabled)
                &&& r.bind_memory2_from_extension == (before_1_1 && bind_memory2_enabled)
                &&& r.get_physical_device_properties2_from_extension == (before_1_1
                    && get_physical_device_properties2_enabled)
                &&& r.maintenance4_from_extension == (before_1_3 && maintenance4_enabled)
            }),
    {
        let before_1_1 = max_api_version < ApiVersion::V1_1();
        let before_1_3 = max_api_version < ApiVersion::V1_3();
        VmaFunctionRouting {
            warn_vulkan_1_0_extensions: before_1_1 && (!get_memory_requirements2_enabled
                || !bind_memory2_enabled || !get_physical_device_properties2_enabled),
            warn_maintenance4: before_1_3 && !maintenance4_enabled,
            get_memory_requirements2_from_extension: before_1_1 && get_memory_requirements2_enabled,
            bind_memory2_from_extension: before_1_1 && bind_memory2_enabled,
            get_physical_device_properties2_from_extension: before_1_1
                && get_physical_device_properties2_enabled,
            maintenance4_from_extension: before_1_3 && maintenance4_enabled,
        }
    }
}

} // verus!
