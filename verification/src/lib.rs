//! Verified core of a Vulkan wrapper: image dimensions, API versions, format
//! classification, swapchain and descriptor-pool planning, memory access checks
//! and the plain-value property records that describe Vulkan objects.

pub mod image_dimensions;

pub use image_dimensions::{Extent2D, Extent3D, ImageAccessError, ImageDimensions};
pub mod api_version;

pub use api_version::ApiVersion;
pub mod format;

pub use format::{
    aspect_mask_from_format, depth_stencil_format_from_features, is_format_linear, is_format_srgb,
    pure_depth_format_from_features,
};
pub mod memory;

pub use memory::{
    allocation_info_cpu_accessible, allocation_info_from_flags, check_memory_access_parameters,
    AllocationCreateInfo, MemoryError, MemoryUsage, PodCastFailure,
};
pub mod properties;

pub use properties::{
    default_component_mapping, default_subresource_layers, default_subresource_range,
    extent_2d_from_width_height, transient_image_info, BufferProperties, CommandPoolProperties,
    ComponentMapping, DebugCallbackProperties, ImageProperties, ImageSubresourceLayers,
    ImageSubresourceRange,
    ImageViewProperties,
};
pub mod surface;
pub mod swapchain;

pub use surface::{
    check_surface_handles, get_first_linear_surface_format, get_first_srgb_surface_format, surface_platform,
    SurfaceCapabilities, SurfaceCreationError, SurfaceFormat, SurfacePlatform, TargetOs, WindowSystem,
};
pub use swapchain::{choose_composite_alpha, SwapchainProperties};
pub mod descriptor;

pub use descriptor::{
    descriptor_pool_properties_for_bindings, descriptor_pool_properties_for_layout,
    descriptor_pool_properties_for_layouts, DescriptorPoolProperties, DescriptorPoolSize,
    DescriptorSetLayoutBinding,
    DescriptorSetLayoutProperties,
};
pub mod instance;

pub use instance::{
    any_unsupported_extensions, extension_name_is_in_properties_list, require_extensions_present,
    required_surface_extensions, DisplaySystem, InstanceError, SurfaceExtension,
};
pub mod command_buffer;
pub mod device;

pub use command_buffer::{check_executable_command_buffer_levels, CommandError};
pub use device::{DeviceFeatureChain, VmaFunctionRouting};
pub mod text;

pub use text::decimal_string;
