use crate::format::{contains_flags, IMAGE_ASPECT_COLOR};
use crate::image_dimensions::{ImageDimensions, IMAGE_VIEW_TYPE_2D, IMAGE_VIEW_TYPE_2D_ARRAY};
use crate::properties::{
    default_component_mapping, default_subresource_range, ComponentMapping, ImageSubresourceRange,
    ImageViewProperties, COMPONENT_SWIZZLE_A, COMPONENT_SWIZZLE_B, COMPONENT_SWIZZLE_G,
    COMPONENT_SWIZZLE_R, SHARING_MODE_EXCLUSIVE,
};
use crate::surface::{SurfaceCapabilities, SurfaceFormat};
use vstd::prelude::*;

verus! {

/// `VK_PRESENT_MODE_MAILBOX_KHR`.
pub const PRESENT_MODE_MAILBOX: i32 = 1;
/// `VK_PRESENT_MODE_FIFO_KHR`.
pub const PRESENT_MODE_FIFO: i32 = 2;
/// `VK_SURFACE_TRANSFORM_IDENTITY_BIT_KHR`.
pub const SURFACE_TRANSFORM_IDENTITY: u32 = 0x1;
/// `VK_COMPOSITE_ALPHA_OPAQUE_BIT_KHR`.
pub const COMPOSITE_ALPHA_OPAQUE: u32 = 0x1;
/// `VK_COMPOSITE_ALPHA_PRE_MULTIPLIED_BIT_KHR`.
pub const COMPOSITE_ALPHA_PRE_MULTIPLIED: u32 = 0x2;
/// `VK_COMPOSITE_ALPHA_POST_MULTIPLIED_BIT_KHR`.
pub const COMPOSITE_ALPHA_POST_MULTIPLIED: u32 = 0x4;
/// `VK_COMPOSITE_ALPHA_INHERIT_BIT_KHR`.
pub const COMPOSITE_ALPHA_INHERIT: u32 = 0x8;

/// The properties a swapchain is created with. When built with `default()`,
/// `surface_format`, `width_height`, `image_usage`, `pre_transform` and
/// `composite_alpha` mean nothing and are to be overridden.
#[derive(Clone, Debug)]
pub struct SwapchainProperties {
    pub flags: u32,
    pub image_count: u32,
    pub pre_transform: u32,
    pub composite_alpha: u32,
    pub present_mode: i32,
    pub clipping_enabled: bool,
    pub surface_format: SurfaceFormat,
    pub width_height: [u32; 2],
    pub array_layers: u32,
    pub image_usage: u32,
    pub sharing_mode: i32,
    pub queue_family_indices: Vec<u32>,
}

impl Default for SwapchainProperties {
    fn default() -> (r: Self)
        ensures
            r.flags == 0,
            r.image_count == 1,
            r.pre_transform == 0,
            r.composite_alpha == 0,
            r.present_mode == PRESENT_MODE_MAILBOX,
            r.clipping_enabled,
            r.surface_format == (SurfaceFormat { format: 0, color_space: 0 }),
            r.width_height@ == seq![1u32, 1u32],
            r.array_layers == 1,
            r.image_usage == 0,
            r.sharing_mode == SHARING_MODE_EXCLUSIVE,
            r.queue_family_indices@ == Seq::<u32>::empty(),
    {
        SwapchainProperties {
            image_count: 1,
            array_layers: 1,
            sharing_mode: SHARING_MODE_EXCLUSIVE,
            queue_family_indices: Vec::new(),
            clipping_enabled: true,
            present_mode: PRESENT_MODE_MAILBOX,
            flags: 0,
            surface_format: SurfaceFormat::default(),
            width_height: [1, 1],
            image_usage: 0,
            pre_transform: 0,
            composite_alpha: 0,
        }
    }
}

/// The preferred image count clamped to the surface's limits: raised to the
/// minimum, and lowered to the maximum when the surface sets one (a maximum of 0
/// means no limit).
pub open spec fn clamped_image_count(capabilities: SurfaceCapabilities, preferred: u32) -> u32 {
    let at_most = if capabilities.max_image_count != 0 && preferred > capabilities.max_image_count {
        capabilities.max_image_count
    } else {
        preferred
    };
    if at_most < capabilities.min_image_count {
        capabilities.min_image_count
    } else {
        at_most
    }
}

/// The swapchain extent: the surface's current extent, or the window's when the
/// surface leaves it to the swapchain (current width `u32::MAX`).
pub open spec fn chosen_width_height(capabilities: SurfaceCapabilities, window_dimensions: Seq<u32>) -> Seq<
    u32,
> {
    if capabilities.current_extent.width == u32::MAX {
        seq![window_dimensions[0], window_dimensions[1]]
    } else {
        seq![capabilities.current_extent.width, capabilities.current_extent.height]
    }
}

/// Mailbox when the surface offers it, else FIFO (which every surface offers).
pub open spec fn chosen_present_mode(present_modes: Seq<i32>) -> i32 {
    if present_modes.contains(PRESENT_MODE_MAILBOX) {
        PRESENT_MODE_MAILBOX
    } else {
        PRESENT_MODE_FIFO
    }
}

/// The identity transform when supported, else the surface's current transform.
pub open spec fn chosen_pre_transform(capabilities: SurfaceCapabilities) -> u32 {
    if contains_flags(capabilities.supported_transforms, SURFACE_TRANSFORM_IDENTITY) {
        SURFACE_TRANSFORM_IDENTITY
    } else {
        capabilities.current_transform
    }
}

fn contains_mailbox(present_modes: &Vec<i32>) -> (r: bool)
    ensures
        r == present_modes@.contains(PRESENT_MODE_MAILBOX),
{
    let mut i: usize = 0;
    while i < present_modes.len()
        invariant
            i <= present_modes@.len(),
            forall|j: int| 0 <= j < i ==> present_modes@[j] != PRESENT_MODE_MAILBOX,
        decreases present_modes@.len() - i,
    {
        if present_modes[i] == PRESENT_MODE_MAILBOX {
            assert(present_modes@[i as int] == PRESENT_MODE_MAILBOX);
            return true;
        }
        i = i + 1;
    }
    false
}

impl SwapchainProperties {
    /// Properties for a swapchain on a surface with the given capabilities and
    /// present modes: the image count is `preferred_image_count` clamped to the
    /// surface's limits (raised to the minimum, lowered to a set maximum), the
    /// present mode is mailbox if offered (else FIFO), the pre-transform is the identity if supported (else the current one), the
    /// extent is the surface's (or the window's when the surface leaves it open).
    /// Sharing mode is exclusive, one array layer, clipping enabled. The surface
    /// format, composite alpha and image usage are taken as given.
    pub fn new_default(
        surface_capabilities: &SurfaceCapabilities,
        present_modes: &Vec<i32>,
        preferred_image_count: u32,
        surface_format: SurfaceFormat,
        composite_alpha: u32,
        image_usage: u32,
        window_dimensions: [u32; 2],
    ) -> (r: Self)
        ensures
            r.flags == 0,
            r.image_count == clamped_image_count(*surface_capabilities, preferred_image_count),
            r.image_count >= surface_capabilities.min_image_count,
            surface_capabilities.max_image_count != 0 && surface_capabilities.min_image_count
                <= surface_capabilities.max_image_count ==> r.image_count
                <= surface_capabilities.max_image_count,
            surface_capabilities.min_image_count <= preferred_image_count && (
            surface_capabilities.max_image_count == 0 || preferred_image_count
                <= surface_capabilities.max_image_count) ==> r.image_count == preferred_image_count,
            surface_capabilities.max_image_count != 0 && surface_capabilities.min_image_count
                <= surface_capabilities.max_image_count && surface_capabilities.max_image_count
                < preferred_image_count ==> r.image_count == surface_capabilities.max_image_count,
            preferred_image_count < surface_capabilities.min_image_count ==> r.image_count
                == surface_capabilities.min_image_count,
            surface_capabilities.max_image_count != 0 && surface_capabilities.max_image_count
                < surface_capabilities.min_image_count ==> r.image_count
                == surface_capabilities.min_image_count,
            r.pre_transform == chosen_pre_transform(*surface_capabilities),
            r.pre_transform == if surface_capabilities.supported_transforms & 1u32 == 1u32 {
                SURFACE_TRANSFORM_IDENTITY
            } else {
                surface_capabilities.current_transform
            },
            r.composite_alpha == composite_alpha,
            r.present_mode == chosen_present_mode(present_modes@),
            r.present_mode == if present_modes@.contains(PRESENT_MODE_MAILBOX) {
                PRESENT_MODE_MAILBOX
            } else {
                PRESENT_MODE_FIFO
            },
            r.clipping_enabled,
            r.surface_format == surface_format,
            r.width_height@ == chosen_width_height(*surface_capabilities, window_dimensions@),
            surface_capabilities.current_extent.width == u32::MAX ==> r.width_height@ == seq![
                window_dimensions@[0],
                window_dimensions@[1],
            ],
            surface_capabilities.current_extent.width != u32::MAX ==> r.width_height@ == seq![
                surface_capabilities.current_extent.width,
                surface_capabilities.current_extent.height,
            ],
            r.array_layers == 1,
            r.image_usage == image_usage,
            r.sharing_mode == SHARING_MODE_EXCLUSIVE,
            r.queue_family_indices@ == Seq::<u32>::empty(),
    {
        let mut image_count = preferred_image_count;
        if surface_capabilities.max_image_count != 0 && image_count
            > surface_capabilities.max_image_count {
            image_count = surface_capabilities.max_image_count;
        }
        if image_count < surface_capabilities.min_image_count {
            image_count = surface_capabilities.min_image_count;
        }
        let width_height = if surface_capabilities.current_extent.width == u32::MAX {
            [window_dimensions[0], window_dimensions[1]]
        } else {
            [surface_capabilities.current_extent.width, surface_capabilities.current_extent.height]
        };
        let present_mode = if contains_mailbox(present_modes) {
            PRESENT_MODE_MAILBOX
        } else {
            PRESENT_MODE_FIFO
        };
        let pre_transform = if surface_capabilities.supported_transforms & SURFACE_TRANSFORM_IDENTITY
            == SURFACE_TRANSFORM_IDENTITY {
            SURFACE_TRANSFORM_IDENTITY
        } else {
            surface_capabilities.current_transform
        };
        let r = SwapchainProperties {
            image_count,
            surface_format,
            width_height,
            image_usage,
            sharing_mode: SHARING_MODE_EXCLUSIVE,
            pre_transform,
            composite_alpha,
            present_mode,
            clipping_enabled: true,
            ..SwapchainProperties::default()
        };
        assert(r.width_height@ =~= chosen_width_height(*surface_capabilities, window_dimensions@));
        r
    }

    /// The dimensions of each swapchain image: 2d, one layer, of the swapchain's
    /// width and height.
    pub fn dimensions(&self) -> (r: ImageDimensions)
        ensures
            r == (ImageDimensions::Dim2d {
                width: self.width_height@[0],
                height: self.width_height@[1],
                array_layers: 1,
            }),
    {
        ImageDimensions::Dim2d { width: self.width_height[0], height: self.width_height[1], array_layers: 1 }
    }

    /// View properties for the swapchain images: their format, a 2d view (a 2d
    /// array view when there is more than one layer) of the color aspect, first
    /// mip level, all layers.
    pub fn image_view_properties(&self) -> (r: ImageViewProperties)
        ensures
            r == (ImageViewProperties {
                flags: 0,
                view_type: if self.array_layers > 1 {
                    IMAGE_VIEW_TYPE_2D_ARRAY
                } else {
                    IMAGE_VIEW_TYPE_2D
                },
                component_mapping: ComponentMapping {
                    r: COMPONENT_SWIZZLE_R,
                    g: COMPONENT_SWIZZLE_G,
                    b: COMPONENT_SWIZZLE_B,
                    a: COMPONENT_SWIZZLE_A,
                },
                format: self.surface_format.format,
                subresource_range: ImageSubresourceRange {
                    aspect_mask: IMAGE_ASPECT_COLOR,
                    base_mip_level: 0,
                    level_count: 1,
                    base_array_layer: 0,
                    layer_count: self.array_layers,
                },
            }),
    {
        let format = self.surface_format.format;
        let component_mapping = default_component_mapping();
        let layer_count = self.array_layers;
        let view_type = if layer_count > 1 {
            IMAGE_VIEW_TYPE_2D_ARRAY
        } else {
            IMAGE_VIEW_TYPE_2D
        };
        let subresource_range = ImageSubresourceRange {
            layer_count,
            ..default_subresource_range(IMAGE_ASPECT_COLOR)
        };
        ImageViewProperties {
            format,
            view_type,
            component_mapping,
            subresource_range,
            ..ImageViewProperties::default()
        }
    }
}

/// The clamped image count respects the surface's limits: it is never below the
/// minimum, never above a set maximum that is consistent with the minimum, and is
/// the preferred count itself when that is already within them.
pub proof fn lemma_image_count_within_limits(capabilities: SurfaceCapabilities, preferred: u32)
    ensures
        clamped_image_count(capabilities, preferred) >= capabilities.min_image_count,
        capabilities.max_image_count != 0 && capabilities.min_image_count
            <= capabilities.max_image_count ==> clamped_image_count(capabilities, preferred)
            <= capabilities.max_image_count,
        capabilities.min_image_count <= preferred && (capabilities.max_image_count == 0 || preferred
            <= capabilities.max_image_count) ==> clamped_image_count(capabilities, preferred) == preferred,
        capabilities.max_image_count != 0 && capabilities.min_image_count
            <= capabilities.max_image_count && capabilities.max_image_count < preferred
            ==> clamped_image_count(capabilities, preferred) == capabilities.max_image_count,
        preferred < capabilities.min_image_count ==> clamped_image_count(capabilities, preferred)
            == capabilities.min_image_count,
        capabilities.max_image_count != 0 && capabilities.max_image_count
            < capabilities.min_image_count ==> clamped_image_count(capabilities, preferred)
            == capabilities.min_image_count,
{
}

/// Mailbox is chosen whenever the surface offers it, wherever it stands in the
/// list of present modes, and FIFO otherwise; the identity transform is chosen
/// whenever the surface supports it; the extent is the window's exactly when the
/// surface leaves it to the swapchain.
pub proof fn lemma_surface_choices(capabilities: SurfaceCapabilities, present_modes: Seq<i32>, window_dimensions: Seq<u32>)
    ensures
        present_modes.contains(PRESENT_MODE_MAILBOX) ==> chosen_present_mode(present_modes)
            == PRESENT_MODE_MAILBOX,
        !present_modes.contains(PRESENT_MODE_MAILBOX) ==> chosen_present_mode(present_modes)
            == PRESENT_MODE_FIFO,
        forall|i: int|
            0 <= i < present_modes.len() && present_modes[i] == PRESENT_MODE_MAILBOX
                ==> chosen_present_mode(present_modes) == PRESENT_MODE_MAILBOX,
        capabilities.supported_transforms & 1u32 == 1u32 ==> chosen_pre_transform(capabilities)
            == SURFACE_TRANSFORM_IDENTITY,
        capabilities.supported_transforms & 1u32 != 1u32 ==> chosen_pre_transform(capabilities)
            == capabilities.current_transform,
        capabilities.current_extent.width == u32::MAX ==> chosen_width_height(capabilities, window_dimensions)
            == seq![window_dimensions[0], window_dimensions[1]],
        capabilities.current_extent.width != u32::MAX ==> chosen_width_height(capabilities, window_dimensions)
            == seq![capabilities.current_extent.width, capabilities.current_extent.height],
{
    assert forall|i: int|
        0 <= i < present_modes.len() && present_modes[i] == PRESENT_MODE_MAILBOX implies chosen_present_mode(
            present_modes,
        ) == PRESENT_MODE_MAILBOX by {
        assert(present_modes.contains(present_modes[i]));
    }
}

/// The composite alpha modes in order of preference: post-multiplied, opaque,
/// pre-multiplied, inherit.
pub open spec fn composite_alpha_preference() -> Seq<u32> {
    seq![
        COMPOSITE_ALPHA_POST_MULTIPLIED,
        COMPOSITE_ALPHA_OPAQUE,
        COMPOSITE_ALPHA_PRE_MULTIPLIED,
        COMPOSITE_ALPHA_INHERIT,
    ]
}

/// The surface supports at least one of the four composite alpha modes.
pub open spec fn supports_some_composite_alpha(capabilities: SurfaceCapabilities) -> bool {
    exists|i: int|
        0 <= i < 4 && contains_flags(
            capabilities.supported_composite_alpha,
            #[trigger] composite_alpha_preference()[i],
        )
}

/// The composite alpha preference is post-multiplied (bit 4), then opaque (bit
/// 1), then pre-multiplied (bit 2), then inherit (bit 8).
pub proof fn lemma_composite_alpha_preference()
    ensures
        composite_alpha_preference() == seq![4u32, 1u32, 2u32, 8u32],
{
    assert(composite_alpha_preference() =~= seq![4u32, 1u32, 2u32, 8u32]);
}

/// The first composite alpha mode, in order of preference, that the surface
/// supports.
pub fn choose_composite_alpha(surface_capabilities: SurfaceCapabilities) -> (r: u32)
    requires
        supports_some_composite_alpha(surface_capabilities),
    ensures
        surface_capabilities.supported_composite_alpha & 4u32 == 4u32 ==> r == 4u32,
        surface_capabilities.supported_composite_alpha & 4u32 != 4u32
            && surface_capabilities.supported_composite_alpha & 1u32 == 1u32 ==> r == 1u32,
        surface_capabilities.supported_composite_alpha & 4u32 != 4u32
            && surface_capabilities.supported_composite_alpha & 1u32 != 1u32
            && surface_capabilities.supported_composite_alpha & 2u32 == 2u32 ==> r == 2u32,
        surface_capabilities.supported_composite_alpha & 4u32 != 4u32
            && surface_capabilities.supported_composite_alpha & 1u32 != 1u32
            && surface_capabilities.supported_composite_alpha & 2u32 != 2u32 ==> r == 8u32,
        exists|k: int|
            0 <= k < 4 && r == #[trigger] composite_alpha_preference()[k] && contains_flags(
                surface_capabilities.supported_composite_alpha,
                r,
            ) && forall|j: int|
                0 <= j < k ==> !contains_flags(
                    surface_capabilities.supported_composite_alpha,
                    #[trigger] composite_alpha_preference()[j],
                ),
{
    let supported = surface_capabilities.supported_composite_alpha;
    let preference: [u32; 4] = [
        COMPOSITE_ALPHA_POST_MULTIPLIED,
        COMPOSITE_ALPHA_OPAQUE,
        COMPOSITE_ALPHA_PRE_MULTIPLIED,
        COMPOSITE_ALPHA_INHERIT,
    ];
    assert(preference@ =~= composite_alpha_preference());
    let mut i: usize = 0;
    while i < 4
        invariant
            i <= 4,
            preference@ == composite_alpha_preference(),
            supported == surface_capabilities.supported_composite_alpha,
            supports_some_composite_alpha(surface_capabilities),
            forall|j: int|
                0 <= j < i ==> !contains_flags(supported, #[trigger] composite_alpha_preference()[j]),
        decreases 4 - i,
    {
        let ca = preference[i];
        if supported & ca == ca {
            return ca;
        }
        i = i + 1;
    }
    proof {
        let k = choose|k: int|
            0 <= k < 4 && contains_flags(supported, #[trigger] composite_alpha_preference()[k]);
        assert(!contains_flags(supported, composite_alpha_preference()[k]));
    }
    COMPOSITE_ALPHA_INHERIT
}

} // verus!
