use crate::format::{aspect_mask_from_format, format_aspect_mask, IMAGE_ASPECT_COLOR};
use crate::image_dimensions::{Extent2D, ImageDimensions};
use crate::memory::{AllocationCreateInfo, MemoryUsage, MEMORY_PROPERTY_DEVICE_LOCAL, MEMORY_PROPERTY_LAZILY_ALLOCATED};
use vstd::prelude::*;

verus! {

/// `VK_SHARING_MODE_EXCLUSIVE`.
pub const SHARING_MODE_EXCLUSIVE: i32 = 0;
/// `VK_IMAGE_TILING_OPTIMAL`.
pub const IMAGE_TILING_OPTIMAL: i32 = 0;
/// `VK_SAMPLE_COUNT_1_BIT`.
pub const SAMPLE_COUNT_1: u32 = 1;
/// `VK_IMAGE_LAYOUT_UNDEFINED`.
pub const IMAGE_LAYOUT_UNDEFINED: i32 = 0;
/// `VK_IMAGE_USAGE_TRANSIENT_ATTACHMENT_BIT`.
pub const IMAGE_USAGE_TRANSIENT_ATTACHMENT: u32 = 0x40;
/// `VK_COMPONENT_SWIZZLE_R`.
pub const COMPONENT_SWIZZLE_R: i32 = 3;
/// `VK_COMPONENT_SWIZZLE_G`.
pub const COMPONENT_SWIZZLE_G: i32 = 4;
/// `VK_COMPONENT_SWIZZLE_B`.
pub const COMPONENT_SWIZZLE_B: i32 = 5;
/// `VK_COMPONENT_SWIZZLE_A`.
pub const COMPONENT_SWIZZLE_A: i32 = 6;

/// Where each channel of a view reads from (`VkComponentMapping`).
#[derive(Clone, Copy, Debug, PartialEq, Eq, Structural)]
pub struct ComponentMapping {
    pub r: i32,
    pub g: i32,
    pub b: i32,
    pub a: i32,
}

/// A range of mip levels and array layers of some aspects (`VkImageSubresourceRange`).
#[derive(Clone, Copy, Debug, PartialEq, Eq, Structural)]
pub struct ImageSubresourceRange {
    pub aspect_mask: u32,
    pub base_mip_level: u32,
    pub level_count: u32,
    pub base_array_layer: u32,
    pub layer_count: u32,
}

/// One mip level and a range of layers of some aspects (`VkImageSubresourceLayers`).
#[derive(Clone, Copy, Debug, PartialEq, Eq, Structural)]
pub struct ImageSubresourceLayers {
    pub aspect_mask: u32,
    pub mip_level: u32,
    pub base_array_layer: u32,
    pub layer_count: u32,
}

/// The identity mapping: each channel reads its own component.
pub fn default_component_mapping() -> (r: ComponentMapping)
    ensures
        r == (ComponentMapping {
            r: COMPONENT_SWIZZLE_R,
            g: COMPONENT_SWIZZLE_G,
            b: COMPONENT_SWIZZLE_B,
            a: COMPONENT_SWIZZLE_A,
        }),
{
    ComponentMapping {
        r: COMPONENT_SWIZZLE_R,
        g: COMPONENT_SWIZZLE_G,
        b: COMPONENT_SWIZZLE_B,
        a: COMPONENT_SWIZZLE_A,
    }
}

/// The first mip level and the first layer of the given aspects.
pub fn default_subresource_range(aspect_mask: u32) -> (r: ImageSubresourceRange)
    ensures
        r == (ImageSubresourceRange {
            aspect_mask,
            base_mip_level: 0,
            level_count: 1,
            base_array_layer: 0,
            layer_count: 1,
        }),
{
    ImageSubresourceRange {
        aspect_mask,
        base_mip_level: 0,
        level_count: 1,
        base_array_layer: 0,
        layer_count: 1,
    }
}

/// The first mip level and the first layer of the given aspects.
pub fn default_subresource_layers(aspect_mask: u32) -> (r: ImageSubresourceLayers)
    ensures
        r == (ImageSubresourceLayers { aspect_mask, mip_level: 0, base_array_layer: 0, layer_count: 1 }),
{
    ImageSubresourceLayers { aspect_mask, mip_level: 0, base_array_layer: 0, layer_count: 1 }
}

/// An extent from a `[width, height]` pair.
pub fn extent_2d_from_width_height(dimensions: [u32; 2]) -> (r: Extent2D)
    ensures
        r == (Extent2D { width: dimensions@[0], height: dimensions@[1] }),
{
    Extent2D { width: dimensions[0], height: dimensions[1] }
}

/// The properties an image is created with (`VkImageCreateInfo` without the
/// pointer chain). The defaults for `format`, `dimensions` and `usage` mean
/// nothing and are to be overridden.
#[derive(Clone, Debug)]
pub struct ImageProperties {
    pub flags: u32,
    pub format: i32,
    pub dimensions: ImageDimensions,
    pub mip_levels: u32,
    pub samples: u32,
    pub tiling: i32,
    pub usage: u32,
    pub sharing_mode: i32,
    pub queue_family_indices: Vec<u32>,
    pub initial_layout: i32,
}

impl Default for ImageProperties {
    fn default() -> (r: Self)
        ensures
            r.flags == 0,
            r.format == 0,
            r.dimensions == (ImageDimensions::Dim1d { width: 1, array_layers: 1 }),
            r.mip_levels == 1,
            r.samples == SAMPLE_COUNT_1,
            r.tiling == IMAGE_TILING_OPTIMAL,
            r.usage == 0,
            r.sharing_mode == SHARING_MODE_EXCLUSIVE,
            r.queue_family_indices@ == Seq::<u32>::empty(),
            r.initial_layout == IMAGE_LAYOUT_UNDEFINED,
    {
        ImageProperties {
            mip_levels: 1,
            samples: SAMPLE_COUNT_1,
            tiling: IMAGE_TILING_OPTIMAL,
            sharing_mode: SHARING_MODE_EXCLUSIVE,
            queue_family_indices: Vec::new(),
            initial_layout: IMAGE_LAYOUT_UNDEFINED,
            flags: 0,
            format: 0,
            dimensions: ImageDimensions::default(),
            usage: 0,
        }
    }
}

impl ImageProperties {
    /// All mip levels and all layers of every aspect the format has.
    pub fn subresource_range(&self) -> (r: ImageSubresourceRange)
        ensures
            r == (ImageSubresourceRange {
                aspect_mask: format_aspect_mask(self.format),
                base_mip_level: 0,
                level_count: self.mip_levels,
                base_array_layer: 0,
                layer_count: self.dimensions.spec_array_layers(),
            }),
    {
        let aspect_mask = aspect_mask_from_format(self.format);
        ImageSubresourceRange {
            aspect_mask,
            base_mip_level: 0,
            level_count: self.mip_levels,
            base_array_layer: 0,
            layer_count: self.dimensions.array_layers(),
        }
    }

    /// Defaults with the given format, dimensions and usage.
    pub fn new_default(format: i32, dimensions: ImageDimensions, usage: u32) -> (r: Self)
        ensures
            r.flags == 0,
            r.format == format,
            r.dimensions == dimensions,
            r.mip_levels == 1,
            r.samples == SAMPLE_COUNT_1,
            r.tiling == IMAGE_TILING_OPTIMAL,
            r.usage == usage,
            r.sharing_mode == SHARING_MODE_EXCLUSIVE,
            r.queue_family_indices@ == Seq::<u32>::empty(),
            r.initial_layout == IMAGE_LAYOUT_UNDEFINED,
    {
        ImageProperties { format, dimensions, usage, ..ImageProperties::default() }
    }
}

/// Properties of a device-local, preferably lazily allocated, transient attachment
/// image: the usage is `TRANSIENT_ATTACHMENT` with `additional_usage`, the memory
/// must be device local and should be lazily allocated.
pub fn transient_image_info(dimensions: ImageDimensions, format: i32, additional_usage: u32) -> (r: (
    ImageProperties,
    AllocationCreateInfo,
))
    ensures
        r.0.flags == 0,
        r.0.format == format,
        r.0.dimensions == dimensions,
        r.0.mip_levels == 1,
        r.0.samples == SAMPLE_COUNT_1,
        r.0.tiling == IMAGE_TILING_OPTIMAL,
        r.0.usage == IMAGE_USAGE_TRANSIENT_ATTACHMENT | additional_usage,
        r.0.sharing_mode == SHARING_MODE_EXCLUSIVE,
        r.0.queue_family_indices@ == Seq::<u32>::empty(),
        r.0.initial_layout == IMAGE_LAYOUT_UNDEFINED,
        r.1 == (AllocationCreateInfo {
            flags: 0,
            usage: MemoryUsage::Unknown,
            required_flags: MEMORY_PROPERTY_DEVICE_LOCAL,
            preferred_flags: MEMORY_PROPERTY_LAZILY_ALLOCATED,
            memory_type_bits: 0,
        }),
{
    let image_properties = ImageProperties::new_default(
        format,
        dimensions,
        IMAGE_USAGE_TRANSIENT_ATTACHMENT | additional_usage,
    );
    let allocation_info = AllocationCreateInfo {
        required_flags: MEMORY_PROPERTY_DEVICE_LOCAL,
        preferred_flags: MEMORY_PROPERTY_LAZILY_ALLOCATED,
        ..AllocationCreateInfo::default()
    };
    (image_properties, allocation_info)
}

/// The properties an image view is created with. The defaults for `format` and
/// `view_type` mean nothing and are to be overridden.
#[derive(Clone, Copy, Debug, PartialEq, Eq, Structural)]
pub struct ImageViewProperties {
    pub flags: u32,
    pub view_type: i32,
    pub component_mapping: ComponentMapping,
    pub format: i32,
    pub subresource_range: ImageSubresourceRange,
}

impl Default for ImageViewProperties {
    fn default() -> (r: Self)
        ensures
            r == (ImageViewProperties {
                flags: 0,
                view_type: 0,
                component_mapping: ComponentMapping {
                    r: COMPONENT_SWIZZLE_R,
                    g: COMPONENT_SWIZZLE_G,
                    b: COMPONENT_SWIZZLE_B,
                    a: COMPONENT_SWIZZLE_A,
                },
                format: 0,
                subresource_range: ImageSubresourceRange {
                    aspect_mask: IMAGE_ASPECT_COLOR,
                    base_mip_level: 0,
                    level_count: 1,
                    base_array_layer: 0,
                    layer_count: 1,
                },
            }),
    {
        ImageViewProperties {
            component_mapping: default_component_mapping(),
            flags: 0,
            subresource_range: default_subresource_range(IMAGE_ASPECT_COLOR),
            format: 0,
            view_type: 0,
        }
    }
}

impl ImageViewProperties {
    /// A view of the whole image: same format, the view type its dimensions
    /// suggest, all mip levels and layers of every aspect of the format.
    pub fn from_image_properties_default(image_properties: &ImageProperties) -> (r: Self)
        ensures
            r.flags == 0,
            r.format == image_properties.format,
            r.view_type == image_properties.dimensions.spec_default_image_view_type(),
            r.component_mapping == (ComponentMapping {
                r: COMPONENT_SWIZZLE_R,
                g: COMPONENT_SWIZZLE_G,
                b: COMPONENT_SWIZZLE_B,
                a: COMPONENT_SWIZZLE_A,
            }),
            r.subresource_range == (ImageSubresourceRange {
                aspect_mask: format_aspect_mask(image_properties.format),
                base_mip_level: 0,
                level_count: image_properties.mip_levels,
                base_array_layer: 0,
                layer_count: image_properties.dimensions.spec_array_layers(),
            }),
    {
        let format = image_properties.format;
        let view_type = image_properties.dimensions.default_image_view_type();
        let subresource_range = image_properties.subresource_range();
        ImageViewProperties { format, subresource_range, view_type, ..ImageViewProperties::default() }
    }
}

/// The properties a buffer is created with. The defaults for `size` and `usage`
/// mean nothing and are to be overridden.
#[derive(Clone, Debug)]
pub struct BufferProperties {
    pub flags: u32,
    pub size: u64,
    pub usage: u32,
    pub sharing_mode: i32,
    pub queue_family_indices: Vec<u32>,
}

impl Default for BufferProperties {
    fn default() -> (r: Self)
        ensures
            r.flags == 0,
            r.size == 0,
            r.usage == 0,
            r.sharing_mode == SHARING_MODE_EXCLUSIVE,
            r.queue_family_indices@ == Seq::<u32>::empty(),
    {
        BufferProperties {
            flags: 0,
            sharing_mode: SHARING_MODE_EXCLUSIVE,
            queue_family_indices: Vec::new(),
            size: 0,
            usage: 0,
        }
    }
}

impl BufferProperties {
    /// Defaults with the given size and usage.
    pub fn new_default(size: u64, usage: u32) -> (r: Self)
        ensures
            r.flags == 0,
            r.size == size,
            r.usage == usage,
            r.sharing_mode == SHARING_MODE_EXCLUSIVE,
            r.queue_family_indices@ == Seq::<u32>::empty(),
    {
        BufferProperties { size, usage, ..BufferProperties::default() }
    }
}

/// The properties a command pool is created with. The default queue family
/// index means nothing and is to be overridden.
#[derive(Clone, Copy, Debug, PartialEq, Eq, Structural)]
pub struct CommandPoolProperties {
    pub flags: u32,
    pub queue_family_index: u32,
}

impl Default for CommandPoolProperties {
    fn default() -> (r: Self)
        ensures
            r == (CommandPoolProperties { flags: 0, queue_family_index: 0 }),
    {
        CommandPoolProperties { flags: 0, queue_family_index: 0 }
    }
}

impl CommandPoolProperties {
    /// No flags, the given queue family.
    pub fn new_default(queue_family_index: u32) -> (r: Self)
        ensures
            r == (CommandPoolProperties { flags: 0, queue_family_index }),
    {
        CommandPoolProperties { queue_family_index, ..CommandPoolProperties::default() }
    }
}

/// `VK_DEBUG_UTILS_MESSAGE_SEVERITY_VERBOSE_BIT_EXT`.
pub const DEBUG_MESSAGE_SEVERITY_VERBOSE: u32 = 0x1;
/// `VK_DEBUG_UTILS_MESSAGE_SEVERITY_INFO_BIT_EXT`.
pub const DEBUG_MESSAGE_SEVERITY_INFO: u32 = 0x10;
/// `VK_DEBUG_UTILS_MESSAGE_SEVERITY_WARNING_BIT_EXT`.
pub const DEBUG_MESSAGE_SEVERITY_WARNING: u32 = 0x100;
/// `VK_DEBUG_UTILS_MESSAGE_SEVERITY_ERROR_BIT_EXT`.
pub const DEBUG_MESSAGE_SEVERITY_ERROR: u32 = 0x1000;
/// `VK_DEBUG_UTILS_MESSAGE_TYPE_GENERAL_BIT_EXT`.
pub const DEBUG_MESSAGE_TYPE_GENERAL: u32 = 0x1;
/// `VK_DEBUG_UTILS_MESSAGE_TYPE_VALIDATION_BIT_EXT`.
pub const DEBUG_MESSAGE_TYPE_VALIDATION: u32 = 0x2;
/// `VK_DEBUG_UTILS_MESSAGE_TYPE_PERFORMANCE_BIT_EXT`.
pub const DEBUG_MESSAGE_TYPE_PERFORMANCE: u32 = 0x4;

/// Which debug messages a debug messenger receives.
#[derive(Clone, Copy, Debug, PartialEq, Eq, Structural)]
pub struct DebugCallbackProperties {
    pub message_severity: u32,
    pub message_type: u32,
}

impl Default for DebugCallbackProperties {
    /// Every severity (error, warning, info, verbose) of general, validation and
    /// performance messages.
    fn default() -> (r: Self)
        ensures
            r == (DebugCallbackProperties {
                message_severity: DEBUG_MESSAGE_SEVERITY_ERROR | DEBUG_MESSAGE_SEVERITY_WARNING
                    | DEBUG_MESSAGE_SEVERITY_INFO | DEBUG_MESSAGE_SEVERITY_VERBOSE,
                message_type: DEBUG_MESSAGE_TYPE_GENERAL | DEBUG_MESSAGE_TYPE_VALIDATION
                    | DEBUG_MESSAGE_TYPE_PERFORMANCE,
            }),
    {
        DebugCallbackProperties {
            message_severity: DEBUG_MESSAGE_SEVERITY_ERROR | DEBUG_MESSAGE_SEVERITY_WARNING
                | DEBUG_MESSAGE_SEVERITY_INFO | DEBUG_MESSAGE_SEVERITY_VERBOSE,
            message_type: DEBUG_MESSAGE_TYPE_GENERAL | DEBUG_MESSAGE_TYPE_VALIDATION
                | DEBUG_MESSAGE_TYPE_PERFORMANCE,
        }
    }
}

} // verus!
