use vstd::prelude::*;

verus! {

/// `VK_FORMAT_UNDEFINED`.
pub const FORMAT_UNDEFINED: i32 = 0;
/// `VK_FORMAT_D16_UNORM`.
pub const FORMAT_D16_UNORM: i32 = 124;
/// `VK_FORMAT_X8_D24_UNORM_PACK32`.
pub const FORMAT_X8_D24_UNORM_PACK32: i32 = 125;
/// `VK_FORMAT_D32_SFLOAT`.
pub const FORMAT_D32_SFLOAT: i32 = 126;
/// `VK_FORMAT_S8_UINT`.
pub const FORMAT_S8_UINT: i32 = 127;
/// `VK_FORMAT_D16_UNORM_S8_UINT`.
pub const FORMAT_D16_UNORM_S8_UINT: i32 = 128;
/// `VK_FORMAT_D24_UNORM_S8_UINT`.
pub const FORMAT_D24_UNORM_S8_UINT: i32 = 129;
/// `VK_FORMAT_D32_SFLOAT_S8_UINT`.
pub const FORMAT_D32_SFLOAT_S8_UINT: i32 = 130;

/// `VK_IMAGE_ASPECT_COLOR_BIT`.
pub const IMAGE_ASPECT_COLOR: u32 = 1;
/// `VK_IMAGE_ASPECT_DEPTH_BIT`.
pub const IMAGE_ASPECT_DEPTH: u32 = 2;
/// `VK_IMAGE_ASPECT_STENCIL_BIT`.
pub const IMAGE_ASPECT_STENCIL: u32 = 4;

/// `VK_FORMAT_FEATURE_DEPTH_STENCIL_ATTACHMENT_BIT`.
pub const FORMAT_FEATURE_DEPTH_STENCIL_ATTACHMENT: u32 = 0x200;

/// The text that `Debug` formatting of `ash::vk::Format::from_raw(format)` writes:
/// the Vulkan name without its `VK_FORMAT_` prefix for a known format, the number
/// in decimal otherwise.
pub uninterp spec fn format_debug_text(format: i32) -> Seq<u8>;

/// Formats `ash::vk::Format::from_raw(format)` with `Debug` (ash's generated impl,
/// a table from known values to their names) and returns the bytes of the text.
#[verifier::external_body]
fn format_debug_bytes(format: i32) -> (r: Vec<u8>)
    ensures
        r@ == format_debug_text(format),
{
    format!("{:?}", ash::vk::Format::from_raw(format)).into_bytes()
}

/// The bytes of `SRGB`.
pub open spec fn srgb_marker() -> Seq<u8> {
    seq![83u8, 82u8, 71u8, 66u8]
}

/// `needle` occurs somewhere in `haystack` as a contiguous run.
pub open spec fn contains_run(haystack: Seq<u8>, needle: Seq<u8>) -> bool {
    exists|i: int|
        0 <= i && i + needle.len() <= haystack.len() && #[trigger] haystack.subrange(i, i + needle.len())
            == needle
}

/// Whether a format's name marks it as sRGB encoded.
pub open spec fn format_is_srgb(format: i32) -> bool {
    contains_run(format_debug_text(format), srgb_marker())
}

/// A name holds the sRGB marker exactly when the four bytes `S`, `R`, `G`, `B`
/// (83, 82, 71, 66) stand next to each other somewhere in it.
pub proof fn lemma_srgb_marker_is_srgb(name: Seq<u8>)
    ensures
        contains_run(name, srgb_marker()) <==> exists|i: int|
            0 <= i && i + 4 <= name.len() && #[trigger] name[i] == 83u8 && name[i + 1] == 82u8 && name[i
                + 2] == 71u8 && name[i + 3] == 66u8,
{
    if contains_run(name, srgb_marker()) {
        let i = choose|i: int|
            0 <= i && i + srgb_marker().len() <= name.len() && #[trigger] name.subrange(
                i,
                i + srgb_marker().len(),
            ) == srgb_marker();
        assert(name.subrange(i, i + 4)[0] == name[i]);
        assert(name.subrange(i, i + 4)[1] == name[i + 1]);
        assert(name.subrange(i, i + 4)[2] == name[i + 2]);
        assert(name.subrange(i, i + 4)[3] == name[i + 3]);
    }
    if exists|i: int|
        0 <= i && i + 4 <= name.len() && #[trigger] name[i] == 83u8 && name[i + 1] == 82u8 && name[i
            + 2] == 71u8 && name[i + 3] == 66u8 {
        let i = choose|i: int|
            0 <= i && i + 4 <= name.len() && #[trigger] name[i] == 83u8 && name[i + 1] == 82u8 && name[i
                + 2] == 71u8 && name[i + 3] == 66u8;
        assert(name.subrange(i, i + 4) =~= srgb_marker());
    }
}

/// Whether a format name contains `SRGB`.
pub fn debug_name_marks_srgb(name: &Vec<u8>) -> (r: bool)
    ensures
        r == contains_run(name@, srgb_marker()),
{
    let n = name.len();
    let mut i: usize = 0;
    while n - i >= 4
        invariant
            n == name@.len(),
            i <= n,
            forall|j: int| 0 <= j < i ==> #[trigger] name@.subrange(j, j + 4) != srgb_marker(),
        decreases n - i,
    {
        if name[i] == 83u8 && name[i + 1] == 82u8 && name[i + 2] == 71u8 && name[i + 3] == 66u8 {
            assert(name@.subrange(i as int, i + 4) =~= srgb_marker());
            return true;
        }
        assert(name@.subrange(i as int, i + 4) != srgb_marker()) by {
            if name@.subrange(i as int, i + 4) == srgb_marker() {
                assert(name@.subrange(i as int, i + 4)[0] == name@[i as int]);
                assert(name@.subrange(i as int, i + 4)[1] == name@[i + 1]);
                assert(name@.subrange(i as int, i + 4)[2] == name@[i + 2]);
                assert(name@.subrange(i as int, i + 4)[3] == name@[i + 3]);
            }
        }
        i = i + 1;
    }
    assert forall|j: int| 0 <= j && j + srgb_marker().len() <= name@.len() implies #[trigger] name@.subrange(
        j,
        j + srgb_marker().len(),
    ) != srgb_marker() by {}
    false
}

/// Whether the format is sRGB encoded: its `Debug` name holds `SRGB`.
pub fn is_format_srgb(format: i32) -> (r: bool)
    ensures
        r == format_is_srgb(format),
{
    let name = format_debug_bytes(format);
    debug_name_marks_srgb(&name)
}

/// Whether the format is linear, that is not sRGB encoded.
pub fn is_format_linear(format: i32) -> (r: bool)
    ensures
        r == !format_is_srgb(format),
{
    !is_format_srgb(format)
}

/// Depth formats, with or without a stencil part.
pub open spec fn format_has_depth(format: i32) -> bool {
    format == FORMAT_D16_UNORM || format == FORMAT_X8_D24_UNORM_PACK32 || format == FORMAT_D32_SFLOAT
        || format == FORMAT_D16_UNORM_S8_UINT || format == FORMAT_D24_UNORM_S8_UINT || format
        == FORMAT_D32_SFLOAT_S8_UINT
}

/// Stencil formats, with or without a depth part.
pub open spec fn format_has_stencil(format: i32) -> bool {
    format == FORMAT_S8_UINT || format == FORMAT_D16_UNORM_S8_UINT || format
        == FORMAT_D24_UNORM_S8_UINT || format == FORMAT_D32_SFLOAT_S8_UINT
}

/// The aspect bits of a format: color for any format with neither depth nor
/// stencil, depth and stencil for the depth/stencil formats that hold them.
pub open spec fn format_aspect_mask(format: i32) -> u32 {
    (if !(format_has_depth(format) || format_has_stencil(format)) {
        IMAGE_ASPECT_COLOR
    } else {
        0
    }) | (if format_has_depth(format) {
        IMAGE_ASPECT_DEPTH
    } else {
        0
    }) | (if format_has_stencil(format) {
        IMAGE_ASPECT_STENCIL
    } else {
        0
    })
}

/// The aspect bits of each format, by Vulkan format number: depth (2) for
/// `D16_UNORM` (124), `X8_D24_UNORM_PACK32` (125) and `D32_SFLOAT` (126), stencil
/// (4) for `S8_UINT` (127), depth and stencil (6) for the combined formats
/// `D16_UNORM_S8_UINT` (128), `D24_UNORM_S8_UINT` (129) and `D32_SFLOAT_S8_UINT`
/// (130), and color (1) for every other format.
pub proof fn lemma_format_aspect_mask_table(format: i32)
    ensures
        format_aspect_mask(format) == if format == 124 || format == 125 || format == 126 {
            2u32
        } else if format == 127 {
            4u32
        } else if format == 128 || format == 129 || format == 130 {
            6u32
        } else {
            1u32
        },
        format_has_stencil(format) && format != 127 ==> format_has_depth(format),
{
    assert((0u32 | 2u32 | 0u32) == 2u32) by (bit_vector);
    assert((0u32 | 0u32 | 4u32) == 4u32) by (bit_vector);
    assert((0u32 | 2u32 | 4u32) == 6u32) by (bit_vector);
    assert((1u32 | 0u32 | 0u32) == 1u32) by (bit_vector);
}

/// The aspects of a format: color for any format with neither depth nor stencil,
/// depth and stencil for the depth/stencil formats that hold them. Planes and
/// metadata are not considered.
pub fn aspect_mask_from_format(format: i32) -> (r: u32)
    ensures
        r == format_aspect_mask(format),
        r == if format == 124 || format == 125 || format == 126 {
            2u32
        } else if format == 127 {
            4u32
        } else if format == 128 || format == 129 || format == 130 {
            6u32
        } else {
            1u32
        },
        (r & IMAGE_ASPECT_COLOR != 0) == !(format_has_depth(format) || format_has_stencil(format)),
        (r & IMAGE_ASPECT_DEPTH != 0) == format_has_depth(format),
        (r & IMAGE_ASPECT_STENCIL != 0) == format_has_stencil(format),
        r & !7u32 == 0,
{
    let depth = format == FORMAT_D16_UNORM || format == FORMAT_X8_D24_UNORM_PACK32 || format
        == FORMAT_D32_SFLOAT || format == FORMAT_D16_UNORM_S8_UINT || format
        == FORMAT_D24_UNORM_S8_UINT || format == FORMAT_D32_SFLOAT_S8_UINT;
    let stencil = format == FORMAT_S8_UINT || format == FORMAT_D16_UNORM_S8_UINT || format
        == FORMAT_D24_UNORM_S8_UINT || format == FORMAT_D32_SFLOAT_S8_UINT;
    let c = !(depth || stencil);
    let aspect: u32 = (if c { IMAGE_ASPECT_COLOR } else { 0 }) | (if depth {
        IMAGE_ASPECT_DEPTH
    } else {
        0
    }) | (if stencil { IMAGE_ASPECT_STENCIL } else { 0 });
    assert((aspect & 1u32 != 0) == c && (aspect & 2u32 != 0) == depth && (aspect & 4u32 != 0)
        == stencil && aspect & !7u32 == 0) by (bit_vector)
        requires
            aspect == ((if c { 1u32 } else { 0u32 }) | (if depth { 2u32 } else { 0u32 }) | (
            if stencil { 4u32 } else { 0u32 })),
    ;
    proof {
        lemma_format_aspect_mask_table(format);
    }
    aspect
}

/// `flags` holds every bit of `bits`.
pub open spec fn contains_flags(flags: u32, bits: u32) -> bool {
    flags & bits == bits
}

/// The depth/stencil format to use, given the optimal-tiling features that the
/// device reports for `D24_UNORM_S8_UINT`: that format when it can be a depth
/// stencil attachment, else `D32_SFLOAT_S8_UINT` (the Vulkan specification
/// guarantees one of the two).
pub fn depth_stencil_format_from_features(d24_s8_optimal_tiling_features: u32) -> (r: i32)
    ensures
        r == if contains_flags(d24_s8_optimal_tiling_features, FORMAT_FEATURE_DEPTH_STENCIL_ATTACHMENT) {
            FORMAT_D24_UNORM_S8_UINT
        } else {
            FORMAT_D32_SFLOAT_S8_UINT
        },
        r == if d24_s8_optimal_tiling_features & 0x200u32 == 0x200u32 {
            129i32
        } else {
            130i32
        },
{
    if d24_s8_optimal_tiling_features & FORMAT_FEATURE_DEPTH_STENCIL_ATTACHMENT
        == FORMAT_FEATURE_DEPTH_STENCIL_ATTACHMENT {
        FORMAT_D24_UNORM_S8_UINT
    } else {
        FORMAT_D32_SFLOAT_S8_UINT
    }
}

/// The pure depth format to use, given the optimal-tiling features that the
/// device reports for `D32_SFLOAT`: that format when it can be a depth stencil
/// attachment, else `X8_D24_UNORM_PACK32` (the Vulkan specification guarantees
/// one of the two).
pub fn pure_depth_format_from_features(d32_optimal_tiling_features: u32) -> (r: i32)
    ensures
        r == if contains_flags(d32_optimal_tiling_features, FORMAT_FEATURE_DEPTH_STENCIL_ATTACHMENT) {
            FORMAT_D32_SFLOAT
        } else {
            FORMAT_X8_D24_UNORM_PACK32
        },
        r == if d32_optimal_tiling_features & 0x200u32 == 0x200u32 {
            126i32
        } else {
            125i32
        },
{
    if d32_optimal_tiling_features & FORMAT_FEATURE_DEPTH_STENCIL_ATTACHMENT
        == FORMAT_FEATURE_DEPTH_STENCIL_ATTACHMENT {
        FORMAT_D32_SFLOAT
    } else {
        FORMAT_X8_D24_UNORM_PACK32
    }
}

} // verus!
