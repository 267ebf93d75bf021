use core::cmp::Ordering;
use vstd::std_specs::cmp::PartialOrdSpec;
use vstd::prelude::*;

verus! {

/// A Vulkan API version. Versions are ordered by `major` first, then `minor`.
#[derive(Clone, Copy, Debug, PartialEq, Eq, Structural, Ord)]
pub struct ApiVersion {
    pub major: u32,
    pub minor: u32,
}

/// The packed `u32` of a Vulkan version number (`VK_MAKE_API_VERSION`): the variant
/// in the top three bits, then seven bits of major, ten of minor, twelve of patch.
pub open spec fn api_version_code(variant: u32, major: u32, minor: u32, patch: u32) -> u32 {
    (variant << 29u32) | (major << 22u32) | (minor << 12u32) | patch
}

/// The major part of a packed version (`VK_API_VERSION_MAJOR`).
pub open spec fn api_version_major_of(version: u32) -> u32 {
    (version >> 22u32) & 0x7fu32
}

/// The minor part of a packed version (`VK_API_VERSION_MINOR`).
pub open spec fn api_version_minor_of(version: u32) -> u32 {
    (version >> 12u32) & 0x3ffu32
}

/// Calls `ash::vk::make_api_version`, which packs the four parts with shifts and
/// bitwise or, exactly as `api_version_code` states.
#[verifier::external_body]
fn make_api_version(variant: u32, major: u32, minor: u32, patch: u32) -> (r: u32)
    ensures
        r == api_version_code(variant, major, minor, patch),
{
    ash::vk::make_api_version(variant, major, minor, patch)
}

/// Calls `ash::vk::api_version_major`: bits 22 to 28 of the packed version.
#[verifier::external_body]
fn api_version_major(version: u32) -> (r: u32)
    ensures
        r == api_version_major_of(version),
{
    ash::vk::api_version_major(version)
}

/// Calls `ash::vk::api_version_minor`: bits 12 to 21 of the packed version.
#[verifier::external_body]
fn api_version_minor(version: u32) -> (r: u32)
    ensures
        r == api_version_minor_of(version),
{
    ash::vk::api_version_minor(version)
}

impl ApiVersion {
    /// Vulkan 1.0.
    #[allow(non_snake_case)]
    pub fn V1_0() -> (r: ApiVersion)
        ensures
            r == (ApiVersion { major: 1, minor: 0 }),
    {
        ApiVersion { major: 1, minor: 0 }
    }

    /// Vulkan 1.1.
    #[allow(non_snake_case)]
    pub fn V1_1() -> (r: ApiVersion)
        ensures
            r == (ApiVersion { major: 1, minor: 1 }),
    {
        ApiVersion { major: 1, minor: 1 }
    }

    /// Vulkan 1.2.
    #[allow(non_snake_case)]
    pub fn V1_2() -> (r: ApiVersion)
        ensures
            r == (ApiVersion { major: 1, minor: 2 }),
    {
        ApiVersion { major: 1, minor: 2 }
    }

    /// Vulkan 1.3.
    #[allow(non_snake_case)]
    pub fn V1_3() -> (r: ApiVersion)
        ensures
            r == (ApiVersion { major: 1, minor: 3 }),
    {
        ApiVersion { major: 1, minor: 3 }
    }

    /// Vulkan 1.4.
    #[allow(non_snake_case)]
    pub fn V1_4() -> (r: ApiVersion)
        ensures
            r == (ApiVersion { major: 1, minor: 4 }),
    {
        ApiVersion { major: 1, minor: 4 }
    }

    pub fn new(major: u32, minor: u32) -> (r: ApiVersion)
        ensures
            r == (ApiVersion { major, minor }),
    {
        ApiVersion { major, minor }
    }

    /// Strictly earlier: a smaller major, or the same major and a smaller minor.
    pub open spec fn earlier_than(self, other: ApiVersion) -> bool {
        self.major < other.major || (self.major == other.major && self.minor < other.minor)
    }

    /// Whether this version is the given one or later, as when deciding whether
    /// the feature structures of a Vulkan version can be queried.
    pub fn is_at_least(&self, other: ApiVersion) -> (r: bool)
        ensures
            r == !self.earlier_than(other),
    {
        !(self.major < other.major || (self.major == other.major && self.minor < other.minor))
    }

    /// Both parts fit the packed layout: major below 128, minor below 1024.
    pub open spec fn fits_packed(self) -> bool {
        self.major < 128 && self.minor < 1024
    }

    /// The packed `u32` of this version, with variant and patch zero.
    pub open spec fn code(self) -> u32 {
        api_version_code(0, self.major, self.minor, 0)
    }

    /// The version packed as Vulkan expects it in `VkApplicationInfo::apiVersion`.
    pub fn as_vk_uint(&self) -> (r: u32)
        ensures
            r == self.code(),
    {
        make_api_version(0, self.major, self.minor, 0)
    }

    /// Unpacks the major and minor parts of a packed version; the variant and
    /// patch parts are dropped.
    pub open spec fn decoded(version: u32) -> ApiVersion {
        ApiVersion { major: api_version_major_of(version), minor: api_version_minor_of(version) }
    }

    /// The version an instance was created for: the one in its application info,
    /// or 0.0 when the create info holds no application info.
    pub fn from_application_info(api_version: Option<u32>) -> (r: ApiVersion)
        ensures
            r == match api_version {
                Some(v) => ApiVersion::decoded(v),
                None => ApiVersion { major: 0, minor: 0 },
            },
    {
        match api_version {
            Some(v) => ApiVersion { major: api_version_major(v), minor: api_version_minor(v) },
            None => ApiVersion { major: 0, minor: 0 },
        }
    }
}

impl PartialOrd for ApiVersion {
    fn partial_cmp(&self, other: &ApiVersion) -> (r: Option<Ordering>) {
        if self.major < other.major {
            Some(Ordering::Less)
        } else if self.major > other.major {
            Some(Ordering::Greater)
        } else if self.minor < other.minor {
            Some(Ordering::Less)
        } else if self.minor > other.minor {
            Some(Ordering::Greater)
        } else {
            Some(Ordering::Equal)
        }
    }
}

impl vstd::std_specs::cmp::PartialOrdSpecImpl for ApiVersion {
    open spec fn obeys_partial_cmp_spec() -> bool {
        true
    }

    open spec fn partial_cmp_spec(&self, other: &ApiVersion) -> Option<Ordering> {
        if self.earlier_than(*other) {
            Some(Ordering::Less)
        } else if other.earlier_than(*self) {
            Some(Ordering::Greater)
        } else {
            Some(Ordering::Equal)
        }
    }
}

/// Versions compare by their major parts first and by their minor parts when
/// the majors are equal: `partial_cmp` (and so `<`, `<=`, `>`, `>=`) answers
/// `Less`, `Equal` or `Greater` exactly as that lexicographic order says, and
/// `earlier_than` (used by `is_at_least`) is its strict part.
pub proof fn lemma_partial_cmp_is_lexicographic(a: ApiVersion, b: ApiVersion)
    ensures
        a.earlier_than(b) <==> (a.major < b.major || (a.major == b.major && a.minor < b.minor)),
        (a.partial_cmp_spec(&b) == Some(Ordering::Less)) <==> (a.major < b.major || (a.major
            == b.major && a.minor < b.minor)),
        (a.partial_cmp_spec(&b) == Some(Ordering::Equal)) <==> (a.major == b.major && a.minor
            == b.minor),
        (a.partial_cmp_spec(&b) == Some(Ordering::Greater)) <==> (a.major > b.major || (a.major
            == b.major && a.minor > b.minor)),
{
}

/// The order of versions is a strict total order: never earlier than itself,
/// transitive, and of two different versions one is earlier.
pub proof fn lemma_order_is_strict_total(a: ApiVersion, b: ApiVersion, c: ApiVersion)
    ensures
        !a.earlier_than(a),
        a.earlier_than(b) && b.earlier_than(c) ==> a.earlier_than(c),
        a != b ==> a.earlier_than(b) || b.earlier_than(a),
        !(a.earlier_than(b) && b.earlier_than(a)),
{
}

/// Unpacking a packed version gives back its major and minor parts, for every
/// version whose parts fit the packed layout.
pub proof fn lemma_decode_encode(a: ApiVersion)
    requires
        a.fits_packed(),
    ensures
        ApiVersion::decoded(a.code()) == a,
{
    let major = a.major;
    let minor = a.minor;
    assert(((((0u32 << 29u32) | (major << 22u32) | (minor << 12u32) | 0u32) >> 22u32) & 0x7fu32)
        == major) by (bit_vector)
        requires
            major < 128u32,
            minor < 1024u32,
    ;
    assert(((((0u32 << 29u32) | (major << 22u32) | (minor << 12u32) | 0u32) >> 12u32) & 0x3ffu32)
        == minor) by (bit_vector)
        requires
            major < 128u32,
            minor < 1024u32,
    ;
}

/// The packed code of a version that fits is `major * 2^22 + minor * 2^12`.
pub proof fn lemma_code_value(a: ApiVersion)
    requires
        a.fits_packed(),
    ensures
        a.code() == a.major * 4194304 + a.minor * 4096,
{
    let major = a.major;
    let minor = a.minor;
    assert(((0u32 << 29u32) | (major << 22u32) | (minor << 12u32) | 0u32) == major * 4194304
        + minor * 4096) by (bit_vector)
        requires
            major < 128u32,
            minor < 1024u32,
    ;
}

/// Packing preserves the order: for versions that fit the packed layout, one is
/// earlier than the other exactly when its packed code is smaller.
pub proof fn lemma_code_preserves_order(a: ApiVersion, b: ApiVersion)
    requires
        a.fits_packed(),
        b.fits_packed(),
    ensures
        a.earlier_than(b) <==> a.code() < b.code(),
        a == b <==> a.code() == b.code(),
{
    lemma_code_value(a);
    lemma_code_value(b);
}

} // verus!
