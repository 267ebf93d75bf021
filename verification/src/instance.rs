use crate::api_version::ApiVersion;
use crate::text::{quoted_list_string, quoted_list_text, vk_result_display_text, vk_result_text};
use vstd::prelude::*;

verus! {

/// The window system a display handle belongs to.
#[derive(Clone, Copy, Debug, PartialEq, Eq, Structural)]
pub enum DisplaySystem {
    Windows,
    Wayland,
    Xlib,
    Xcb,
    Android,
    AppKit,
    UiKit,
    /// Any other window system; no surface extensions are known for it.
    Other,
}

/// An instance extension needed to create surfaces.
#[derive(Clone, Copy, Debug, PartialEq, Eq, Structural)]
pub enum SurfaceExtension {
    /// `VK_KHR_surface`.
    KhrSurface,
    /// `VK_KHR_win32_surface`.
    KhrWin32Surface,
    /// `VK_KHR_wayland_surface`.
    KhrWaylandSurface,
    /// `VK_KHR_xlib_surface`.
    KhrXlibSurface,
    /// `VK_KHR_xcb_surface`.
    KhrXcbSurface,
    /// `VK_KHR_android_surface`.
    KhrAndroidSurface,
    /// `VK_EXT_metal_surface`.
    ExtMetalSurface,
}

/// Why an instance could not be made. A Vulkan failure carries the raw
/// `VkResult` code.
#[derive(Debug, Clone)]
pub enum InstanceError {
    UnsupportedRawDisplayHandle,
    /// The names of the requested extensions that are not present.
    ExtensionsNotPresent(Vec<Vec<u8>>),
    Creation(i32),
}

impl InstanceError {
    /// The description of the error.
    pub open spec fn message_text(&self) -> Seq<char> {
        match *self {
            InstanceError::UnsupportedRawDisplayHandle =>
                "unsupported display handle. could not determine the required surface extensions for this window system"@,
            InstanceError::ExtensionsNotPresent(names) =>
                "the following extensions were reqested but are not present: "@ + quoted_list_text(names.deep_view()),
            InstanceError::Creation(code) => "failed to create device "@ + vk_result_display_text(code),
        }
    }

    /// A description of the error.
    pub fn message(&self) -> (r: String)
        ensures
            r@ == self.message_text(),
    {
        proof {
            reveal_strlit("unsupported display handle. could not determine the required surface extensions for this window system");
            reveal_strlit("the following extensions were reqested but are not present: ");
            reveal_strlit("failed to create device ");
        }
        match self {
            InstanceError::UnsupportedRawDisplayHandle => {
                "unsupported display handle. could not determine the required surface extensions for this window system".to_owned()
            },
            InstanceError::ExtensionsNotPresent(names) => {
                let mut s = "the following extensions were reqested but are not present: ".to_owned();
                s.append(quoted_list_string(names).as_str());
                s
            },
            InstanceError::Creation(code) => {
                let mut s = "failed to create device ".to_owned();
                s.append(vk_result_text(*code).as_str());
                s
            },
        }
    }
}

/// The platform extension a window system's surfaces need, if it is supported.
pub open spec fn platform_surface_extension(display: DisplaySystem) -> Option<SurfaceExtension> {
    match display {
        DisplaySystem::Windows => Some(SurfaceExtension::KhrWin32Surface),
        DisplaySystem::Wayland => Some(SurfaceExtension::KhrWaylandSurface),
        DisplaySystem::Xlib => Some(SurfaceExtension::KhrXlibSurface),
        DisplaySystem::Xcb => Some(SurfaceExtension::KhrXcbSurface),
        DisplaySystem::Android => Some(SurfaceExtension::KhrAndroidSurface),
        DisplaySystem::AppKit => Some(SurfaceExtension::ExtMetalSurface),
        DisplaySystem::UiKit => Some(SurfaceExtension::ExtMetalSurface),
        DisplaySystem::Other => None,
    }
}

/// The surface extension of each window system: Win32, Wayland, Xlib, XCB and
/// Android each have their own, the two Apple systems share the Metal one, and
/// any other system has none.
pub proof fn lemma_platform_surface_extension_table(display: DisplaySystem)
    ensures
        platform_surface_extension(DisplaySystem::Windows) == Some(SurfaceExtension::KhrWin32Surface),
        platform_surface_extension(DisplaySystem::Wayland) == Some(SurfaceExtension::KhrWaylandSurface),
        platform_surface_extension(DisplaySystem::Xlib) == Some(SurfaceExtension::KhrXlibSurface),
        platform_surface_extension(DisplaySystem::Xcb) == Some(SurfaceExtension::KhrXcbSurface),
        platform_surface_extension(DisplaySystem::Android) == Some(SurfaceExtension::KhrAndroidSurface),
        platform_surface_extension(DisplaySystem::AppKit) == Some(SurfaceExtension::ExtMetalSurface),
        platform_surface_extension(DisplaySystem::UiKit) == Some(SurfaceExtension::ExtMetalSurface),
        platform_surface_extension(DisplaySystem::Other) is None,
        platform_surface_extension(display) != Some(SurfaceExtension::KhrSurface),
{
}

/// The instance extensions needed to create a surface on the given window
/// system: `VK_KHR_surface` and the platform's surface extension. Unknown window
/// systems are refused.
pub fn required_surface_extensions(display: DisplaySystem) -> (r: Result<[SurfaceExtension; 2], InstanceError>)
    ensures
        match platform_surface_extension(display) {
            Some(platform) => r matches Ok(exts) && exts@ == seq![SurfaceExtension::KhrSurface, platform],
            None => r matches Err(InstanceError::UnsupportedRawDisplayHandle),
        },
{
    let platform = match display {
        DisplaySystem::Windows => SurfaceExtension::KhrWin32Surface,
        DisplaySystem::Wayland => SurfaceExtension::KhrWaylandSurface,
        DisplaySystem::Xlib => SurfaceExtension::KhrXlibSurface,
        DisplaySystem::Xcb => SurfaceExtension::KhrXcbSurface,
        DisplaySystem::Android => SurfaceExtension::KhrAndroidSurface,
        DisplaySystem::AppKit | DisplaySystem::UiKit => SurfaceExtension::ExtMetalSurface,
        DisplaySystem::Other => {
            return Err(InstanceError::UnsupportedRawDisplayHandle);
        },
    };
    let exts = [SurfaceExtension::KhrSurface, platform];
    assert(exts@ =~= seq![SurfaceExtension::KhrSurface, platform]);
    Ok(exts)
}

proof fn lemma_names_deep_view(names: &Vec<Vec<u8>>, i: int)
    requires
        0 <= i < names@.len(),
    ensures
        names.deep_view()[i] == names@[i]@,
        names.deep_view().len() == names@.len(),
{
    assert(names@[i].deep_view() =~= names@[i]@);
}

fn bytes_equal(a: &Vec<u8>, b: &Vec<u8>) -> (r: bool)
    ensures
        r == (a@ == b@),
{
    if a.len() != b.len() {
        return false;
    }
    let mut i: usize = 0;
    while i < a.len()
        invariant
            a@.len() == b@.len(),
            i <= a@.len(),
            forall|j: int| 0 <= j < i ==> a@[j] == b@[j],
        decreases a@.len() - i,
    {
        if a[i] != b[i] {
            return false;
        }
        i = i + 1;
    }
    assert(a@ =~= b@);
    true
}

/// Whether the name (the bytes of an extension or layer name, without the
/// terminating nul) is one of the names a driver reports.
pub fn extension_name_is_in_properties_list(extension_properties: &Vec<Vec<u8>>, extension_name: &Vec<u8>) -> (r:
    bool)
    ensures
        r == extension_properties.deep_view().contains(extension_name@),
{
    let ghost props = extension_properties.deep_view();
    let mut i: usize = 0;
    while i < extension_properties.len()
        invariant
            i <= extension_properties@.len(),
            props == extension_properties.deep_view(),
            forall|j: int| 0 <= j < i ==> props[j] != extension_name@,
        decreases extension_properties@.len() - i,
    {
        proof {
            lemma_names_deep_view(extension_properties, i as int);
        }
        if bytes_equal(&extension_properties[i], extension_name) {
            assert(props[i as int] == extension_name@);
            return true;
        }
        i = i + 1;
    }
    false
}

/// The names that do not occur among the reported names, in their order.
pub open spec fn missing_names(reported: Seq<Seq<u8>>, names: Seq<Seq<u8>>) -> Seq<Seq<u8>> {
    names.filter(|n: Seq<u8>| !reported.contains(n))
}

fn unsupported_names(extension_properties: &Vec<Vec<u8>>, extension_names: &Vec<Vec<u8>>) -> (r: Vec<
    Vec<u8>,
>)
    ensures
        r.deep_view() == missing_names(extension_properties.deep_view(), extension_names.deep_view()),
{
    broadcast use vstd::seq_lib::group_seq_properties;

    let ghost names = extension_names.deep_view();
    let ghost reported = extension_properties.deep_view();
    let mut unsupported: Vec<Vec<u8>> = Vec::new();
    let mut i: usize = 0;
    while i < extension_names.len()
        invariant
            i <= extension_names@.len(),
            names == extension_names.deep_view(),
            reported == extension_properties.deep_view(),
            unsupported.deep_view() == missing_names(reported, names.take(i as int)),
        decreases extension_names@.len() - i,
    {
        let present = extension_name_is_in_properties_list(extension_properties, &extension_names[i]);
        proof {
            lemma_names_deep_view(extension_names, i as int);
            assert(names.take(i + 1) =~= names.take(i as int).push(names[i as int]));
            names.take(i as int).lemma_filter_push(names[i as int], |n: Seq<u8>| !reported.contains(n));
        }
        if !present {
            let name = extension_names[i].clone();
            assert(name@ =~= extension_names@[i as int]@);
            let ghost before = unsupported.deep_view();
            unsupported.push(name);
            assert(unsupported.deep_view() =~= before.push(names[i as int]));
        }
        i = i + 1;
    }
    assert(names.take(names.len() as int) =~= names);
    unsupported
}

/// The requested extension names that the driver does not report, in the order
/// they were requested.
pub fn any_unsupported_extensions(extension_properties: &Vec<Vec<u8>>, extension_names: Vec<Vec<u8>>) -> (r: Vec<
    Vec<u8>,
>)
    ensures
        r.deep_view() == missing_names(extension_properties.deep_view(), extension_names.deep_view()),
{
    unsupported_names(extension_properties, &extension_names)
}

/// Checks that every requested extension is reported by the driver: the names
/// come back when they all are, else the ones that are not are the error.
pub fn require_extensions_present(extension_properties: &Vec<Vec<u8>>, extension_names: Vec<Vec<u8>>) -> (r:
    Result<Vec<Vec<u8>>, InstanceError>)
    ensures
        missing_names(extension_properties.deep_view(), extension_names.deep_view()).len() == 0
            ==> (r matches Ok(names) && names.deep_view() == extension_names.deep_view()),
        missing_names(extension_properties.deep_view(), extension_names.deep_view()).len() != 0
            ==> (r matches Err(InstanceError::ExtensionsNotPresent(missing)) && missing.deep_view()
            == missing_names(extension_properties.deep_view(), extension_names.deep_view())),
{
    let unsupported = unsupported_names(extension_properties, &extension_names);
    if unsupported.len() != 0 {
        Err(InstanceError::ExtensionsNotPresent(unsupported))
    } else {
        Ok(extension_names)
    }
}

/// A name is reported missing exactly when it was requested and the driver does
/// not report it.
pub proof fn lemma_missing_names_exact(reported: Seq<Seq<u8>>, names: Seq<Seq<u8>>, name: Seq<u8>)
    ensures
        missing_names(reported, names).contains(name) <==> (names.contains(name) && !reported.contains(
            name,
        )),
{
    broadcast use vstd::seq_lib::group_seq_properties;

    let pred = |n: Seq<u8>| !reported.contains(n);
    if names.contains(name) && !reported.contains(name) {
        let i = choose|i: int| 0 <= i < names.len() && names[i] == name;
        names.lemma_filter_contains(pred, i);
    }
    if missing_names(reported, names).contains(name) {
        let i = choose|i: int| 0 <= i < names.filter(pred).len() && names.filter(pred)[i] == name;
        names.lemma_filter_pred(pred, i);
        names.lemma_filter_contains_rev(pred, name);
    }
}

} // verus!
