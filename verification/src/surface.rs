use crate::format::{format_is_srgb, is_format_srgb};
use crate::image_dimensions::Extent2D;
use crate::instance::{platform_surface_extension, DisplaySystem, SurfaceExtension};
use crate::text::{vk_result_display_text, vk_result_text};
use vstd::prelude::*;

verus! {

/// A format and color space pair a surface supports (`VkSurfaceFormatKHR`).
#[derive(Clone, Copy, Debug, PartialEq, Eq, Structural)]
pub struct SurfaceFormat {
    pub format: i32,
    pub color_space: i32,
}

impl Default for SurfaceFormat {
    fn default() -> (r: Self)
        ensures
            r == (SurfaceFormat { format: 0, color_space: 0 }),
    {
        SurfaceFormat { format: 0, color_space: 0 }
    }
}

/// What a surface allows of a swapchain (`VkSurfaceCapabilitiesKHR`).
#[derive(Clone, Copy, Debug, PartialEq, Eq, Structural)]
pub struct SurfaceCapabilities {
    pub min_image_count: u32,
    /// 0 when there is no limit.
    pub max_image_count: u32,
    /// `u32::MAX` in both parts when the swapchain decides the extent.
    pub current_extent: Extent2D,
    pub min_image_extent: Extent2D,
    pub max_image_extent: Extent2D,
    pub max_image_array_layers: u32,
    pub supported_transforms: u32,
    pub current_transform: u32,
    pub supported_composite_alpha: u32,
    pub supported_usage_flags: u32,
}

/// `k` is the first index of `formats` whose format is (when `srgb`) or is not
/// (otherwise) sRGB encoded.
pub open spec fn first_with_encoding(formats: Seq<SurfaceFormat>, k: int, srgb: bool) -> bool {
    &&& 0 <= k < formats.len()
    &&& format_is_srgb(formats[k].format) == srgb
    &&& forall|j: int| 0 <= j < k ==> format_is_srgb(#[trigger] formats[j].format) != srgb
}

/// What a search for the first format with the given encoding returns: the entry
/// at the first such index, or `None` when there is none.
pub open spec fn found_first(formats: Seq<SurfaceFormat>, srgb: bool, r: Option<SurfaceFormat>) -> bool {
    match r {
        Some(f) => exists|k: int| first_with_encoding(formats, k, srgb) && #[trigger] formats[k] == f,
        None => forall|j: int| 0 <= j < formats.len() ==> format_is_srgb(#[trigger] formats[j].format) != srgb,
    }
}

fn first_surface_format_with_encoding(surface_formats: &Vec<SurfaceFormat>, srgb: bool) -> (r: Option<
    SurfaceFormat,
>)
    ensures
        found_first(surface_formats@, srgb, r),
{
    let mut i: usize = 0;
    while i < surface_formats.len()
        invariant
            i <= surface_formats@.len(),
            forall|j: int| 0 <= j < i ==> format_is_srgb(#[trigger] surface_formats@[j].format) != srgb,
        decreases surface_formats@.len() - i,
    {
        let f = surface_formats[i];
        if is_format_srgb(f.format) == srgb {
            assert(first_with_encoding(surface_formats@, i as int, srgb));
            return Some(f);
        }
        i = i + 1;
    }
    None
}

/// The first surface format whose image format is sRGB encoded, or `None`.
pub fn get_first_srgb_surface_format(surface_formats: &Vec<SurfaceFormat>) -> (r: Option<SurfaceFormat>)
    ensures
        found_first(surface_formats@, true, r),
        r is None <==> forall|j: int|
            0 <= j < surface_formats@.len() ==> !format_is_srgb(#[trigger] surface_formats@[j].format),
        r matches Some(f) ==> exists|k: int|
            0 <= k < surface_formats@.len() && #[trigger] surface_formats@[k] == f && format_is_srgb(
                f.format,
            ) && forall|j: int| 0 <= j < k ==> !format_is_srgb(#[trigger] surface_formats@[j].format),
{
    first_surface_format_with_encoding(surface_formats, true)
}

/// The first surface format whose image format is linear, or `None`.
pub fn get_first_linear_surface_format(surface_formats: &Vec<SurfaceFormat>) -> (r: Option<
    SurfaceFormat,
>)
    ensures
        found_first(surface_formats@, false, r),
        r is None <==> forall|j: int|
            0 <= j < surface_formats@.len() ==> format_is_srgb(#[trigger] surface_formats@[j].format),
        r matches Some(f) ==> exists|k: int|
            0 <= k < surface_formats@.len() && #[trigger] surface_formats@[k] == f && !format_is_srgb(
                f.format,
            ) && forall|j: int| 0 <= j < k ==> format_is_srgb(#[trigger] surface_formats@[j].format),
{
    first_surface_format_with_encoding(surface_formats, false)
}

/// The kind of window a raw window handle refers to.
#[derive(Clone, Copy, Debug, PartialEq, Eq, Structural)]
pub enum WindowSystem {
    Win32,
    Wayland,
    Xlib,
    Xcb,
    AndroidNdk,
    AppKit,
    UiKit,
    Other,
}

/// The surface creation call that a display and window pair takes.
#[derive(Clone, Copy, Debug, PartialEq, Eq, Structural)]
pub enum SurfacePlatform {
    Win32,
    Wayland,
    Xlib,
    Xcb,
    Android,
    /// A Metal layer of a macOS view.
    MetalAppKit,
    /// A Metal layer of an iOS view.
    MetalUiKit,
}

/// Why a surface could not be created. A Vulkan failure carries the raw
/// `VkResult` code.
#[derive(Clone, Copy, Debug, PartialEq, Eq, Structural)]
pub enum SurfaceCreationError {
    VkResult(i32),
    NoXcbConnectionPointer,
    NoXlibDisplayPointer,
    NoWin32HINSTANCE,
    UnsupportedDisplaySystem(),
}

impl SurfaceCreationError {
    /// The description of the error.
    pub open spec fn message_text(&self) -> Seq<char> {
        match *self {
            SurfaceCreationError::VkResult(code) => vk_result_display_text(code),
            SurfaceCreationError::NoXcbConnectionPointer =>
                "the XCB display handle is missing a valid xcb_connection_t* pointer which is required\n                to create a surface"@,
            SurfaceCreationError::NoXlibDisplayPointer =>
                "the X11 display handle is missing a valid Display* pointer which is required\n                to create a surface"@,
            SurfaceCreationError::NoWin32HINSTANCE =>
                "the Win32 window handle is missing a valid HINSTANCE which is required\n                to create a surface"@,
            SurfaceCreationError::UnsupportedDisplaySystem() =>
                "the display and window handles represent a windowing system that is currently unsupported."@,
        }
    }

    /// A description of the error.
    pub fn message(&self) -> (r: String)
        ensures
            r@ == self.message_text(),
    {
        match *self {
            SurfaceCreationError::VkResult(code) => vk_result_text(code),
            SurfaceCreationError::NoXcbConnectionPointer => {
                proof {
                    reveal_strlit("the XCB display handle is missing a valid xcb_connection_t* pointer which is required\n                to create a surface");
                }
                "the XCB display handle is missing a valid xcb_connection_t* pointer which is required\n                to create a surface".to_owned()
            },
            SurfaceCreationError::NoXlibDisplayPointer => {
                proof {
                    reveal_strlit("the X11 display handle is missing a valid Display* pointer which is required\n                to create a surface");
                }
                "the X11 display handle is missing a valid Display* pointer which is required\n                to create a surface".to_owned()
            },
            SurfaceCreationError::NoWin32HINSTANCE => {
                proof {
                    reveal_strlit("the Win32 window handle is missing a valid HINSTANCE which is required\n                to create a surface");
                }
                "the Win32 window handle is missing a valid HINSTANCE which is required\n                to create a surface".to_owned()
            },
            SurfaceCreationError::UnsupportedDisplaySystem() => {
                proof {
                    reveal_strlit("the display and window handles represent a windowing system that is currently unsupported.");
                }
                "the display and window handles represent a windowing system that is currently unsupported.".to_owned()
            },
        }
    }
}

/// The operating system the library is built for, as far as surface creation
/// depends on it: Metal surfaces exist for AppKit windows on macOS and for UIKit
/// windows on iOS only.
#[derive(Clone, Copy, Debug, PartialEq, Eq, Structural)]
pub enum TargetOs {
    MacOs,
    Ios,
    Other,
}

/// The platform a display and window pair belongs to: both handles must be of
/// the same window system, and the Metal platforms need their operating system.
pub open spec fn surface_platform_of(display: DisplaySystem, window: WindowSystem, target: TargetOs) -> Option<
    SurfacePlatform,
> {
    match (display, window) {
        (DisplaySystem::Windows, WindowSystem::Win32) => Some(SurfacePlatform::Win32),
        (DisplaySystem::Wayland, WindowSystem::Wayland) => Some(SurfacePlatform::Wayland),
        (DisplaySystem::Xlib, WindowSystem::Xlib) => Some(SurfacePlatform::Xlib),
        (DisplaySystem::Xcb, WindowSystem::Xcb) => Some(SurfacePlatform::Xcb),
        (DisplaySystem::Android, WindowSystem::AndroidNdk) => Some(SurfacePlatform::Android),
        (DisplaySystem::AppKit, WindowSystem::AppKit) => if target == TargetOs::MacOs {
            Some(SurfacePlatform::MetalAppKit)
        } else {
            None
        },
        (DisplaySystem::UiKit, WindowSystem::UiKit) => if target == TargetOs::Ios {
            Some(SurfacePlatform::MetalUiKit)
        } else {
            None
        },
        _ => None,
    }
}

/// Which surface to create for a display and a window on the given operating
/// system; mismatched or unknown window systems, and Metal windows elsewhere than
/// on their own operating system, are refused.
pub fn surface_platform(display: DisplaySystem, window: WindowSystem, target: TargetOs) -> (r: Result<
    SurfacePlatform,
    SurfaceCreationError,
>)
    ensures
        match surface_platform_of(display, window, target) {
            Some(p) => r matches Ok(q) && q == p,
            None => r matches Err(SurfaceCreationError::UnsupportedDisplaySystem()),
        },
{
    match (display, window) {
        (DisplaySystem::Windows, WindowSystem::Win32) => Ok(SurfacePlatform::Win32),
        (DisplaySystem::Wayland, WindowSystem::Wayland) => Ok(SurfacePlatform::Wayland),
        (DisplaySystem::Xlib, WindowSystem::Xlib) => Ok(SurfacePlatform::Xlib),
        (DisplaySystem::Xcb, WindowSystem::Xcb) => Ok(SurfacePlatform::Xcb),
        (DisplaySystem::Android, WindowSystem::AndroidNdk) => Ok(SurfacePlatform::Android),
        (DisplaySystem::AppKit, WindowSystem::AppKit) if target == TargetOs::MacOs => Ok(
            SurfacePlatform::MetalAppKit,
        ),
        (DisplaySystem::UiKit, WindowSystem::UiKit) if target == TargetOs::Ios => Ok(
            SurfacePlatform::MetalUiKit,
        ),
        _ => Err(SurfaceCreationError::UnsupportedDisplaySystem()),
    }
}

/// A display and a window of the same window system get that system's surface
/// platform on every target (Win32, Wayland, Xlib, XCB, Android), and Metal on
/// the Apple system the window kind belongs to; handles of different window
/// systems never get a platform. Every display that gets a platform is one whose
/// surface extensions are known, and the platform's extension is the one the
/// instance is asked for.
pub proof fn lemma_surface_platform_pairs(display: DisplaySystem, window: WindowSystem, target: TargetOs)
    ensures
        surface_platform_of(DisplaySystem::Windows, WindowSystem::Win32, target) == Some(SurfacePlatform::Win32),
        surface_platform_of(DisplaySystem::Wayland, WindowSystem::Wayland, target) == Some(
            SurfacePlatform::Wayland,
        ),
        surface_platform_of(DisplaySystem::Xlib, WindowSystem::Xlib, target) == Some(SurfacePlatform::Xlib),
        surface_platform_of(DisplaySystem::Xcb, WindowSystem::Xcb, target) == Some(SurfacePlatform::Xcb),
        surface_platform_of(DisplaySystem::Android, WindowSystem::AndroidNdk, target) == Some(
            SurfacePlatform::Android,
        ),
        surface_platform_of(DisplaySystem::AppKit, WindowSystem::AppKit, TargetOs::MacOs) == Some(
            SurfacePlatform::MetalAppKit,
        ),
        surface_platform_of(DisplaySystem::UiKit, WindowSystem::UiKit, TargetOs::Ios) == Some(
            SurfacePlatform::MetalUiKit,
        ),
        display == DisplaySystem::Other || window == WindowSystem::Other ==> surface_platform_of(
            display,
            window,
            target,
        ) is None,
        surface_platform_of(display, window, target) is Some ==> platform_surface_extension(display) is Some,
        surface_platform_of(display, window, target) == Some(SurfacePlatform::Wayland)
            ==> platform_surface_extension(display) == Some(SurfaceExtension::KhrWaylandSurface),
        surface_platform_of(display, window, target) == Some(SurfacePlatform::Win32)
            ==> platform_surface_extension(display) == Some(SurfaceExtension::KhrWin32Surface),
        surface_platform_of(display, window, target) == Some(SurfacePlatform::Xlib)
            ==> platform_surface_extension(display) == Some(SurfaceExtension::KhrXlibSurface),
        surface_platform_of(display, window, target) == Some(SurfacePlatform::Xcb)
            ==> platform_surface_extension(display) == Some(SurfaceExtension::KhrXcbSurface),
        surface_platform_of(display, window, target) == Some(SurfacePlatform::Android)
            ==> platform_surface_extension(display) == Some(SurfaceExtension::KhrAndroidSurface),
        surface_platform_of(display, window, target) == Some(SurfacePlatform::MetalAppKit)
            || surface_platform_of(display, window, target) == Some(SurfacePlatform::MetalUiKit)
            ==> platform_surface_extension(display) == Some(SurfaceExtension::ExtMetalSurface),
{
}

/// Checks that the handles carry the pointer that creating a surface on the
/// platform needs: the `HINSTANCE` of a Win32 window, the `Display*` of an Xlib
/// display and the `xcb_connection_t*` of an XCB display. Other platforms need
/// none of them.
pub fn check_surface_handles(
    platform: SurfacePlatform,
    win32_hinstance_present: bool,
    xlib_display_present: bool,
    xcb_connection_present: bool,
) -> (r: Result<(), SurfaceCreationError>)
    ensures
        r == match platform {
            SurfacePlatform::Win32 => if win32_hinstance_present {
                Ok(())
            } else {
                Err(SurfaceCreationError::NoWin32HINSTANCE)
            },
            SurfacePlatform::Xlib => if xlib_display_present {
                Ok(())
            } else {
                Err(SurfaceCreationError::NoXlibDisplayPointer)
            },
            SurfacePlatform::Xcb => if xcb_connection_present {
                Ok(())
            } else {
                Err(SurfaceCreationError::NoXcbConnectionPointer)
            },
            _ => Ok::<(), SurfaceCreationError>(()),
        },
{
    match platform {
        SurfacePlatform::Win32 if !win32_hinstance_present => Err(SurfaceCreationError::NoWin32HINSTANCE),
        SurfacePlatform::Xlib if !xlib_display_present => Err(SurfaceCreationError::NoXlibDisplayPointer),
        SurfacePlatform::Xcb if !xcb_connection_present => Err(SurfaceCreationError::NoXcbConnectionPointer),
        _ => Ok(()),
    }
}

/// Of any non-empty list of surface formats, the search for the first sRGB one or
/// the search for the first linear one finds something; the two never find the
/// same entry.
pub proof fn lemma_srgb_or_linear_found(
    formats: Seq<SurfaceFormat>,
    srgb: Option<SurfaceFormat>,
    linear: Option<SurfaceFormat>,
)
    requires
        formats.len() > 0,
        found_first(formats, true, srgb),
        found_first(formats, false, linear),
    ensures
        srgb is Some || linear is Some,
        srgb is Some && linear is Some ==> srgb != linear,
{
    if srgb is None {
        assert(format_is_srgb(formats[0].format) != true);
    }
}

} // verus!
