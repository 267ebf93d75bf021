use crate::text::{decimal_string, decimal_text, vk_result_display_text, vk_result_text};
use vstd::prelude::*;

verus! {

/// `VK_MEMORY_PROPERTY_DEVICE_LOCAL_BIT`.
pub const MEMORY_PROPERTY_DEVICE_LOCAL: u32 = 0x1;
/// `VK_MEMORY_PROPERTY_HOST_VISIBLE_BIT`.
pub const MEMORY_PROPERTY_HOST_VISIBLE: u32 = 0x2;
/// `VK_MEMORY_PROPERTY_HOST_COHERENT_BIT`.
pub const MEMORY_PROPERTY_HOST_COHERENT: u32 = 0x4;
/// `VK_MEMORY_PROPERTY_HOST_CACHED_BIT`.
pub const MEMORY_PROPERTY_HOST_CACHED: u32 = 0x8;
/// `VK_MEMORY_PROPERTY_LAZILY_ALLOCATED_BIT`.
pub const MEMORY_PROPERTY_LAZILY_ALLOCATED: u32 = 0x10;

/// Intended usage of an allocation (`VmaMemoryUsage`).
#[derive(Clone, Copy, Debug, PartialEq, Eq, Structural)]
pub enum MemoryUsage {
    Unknown,
    GpuOnly,
    CpuOnly,
    CpuToGpu,
    GpuToCpu,
    CpuCopy,
    GpuLazy,
    Auto,
    AutoPreferDevice,
    AutoPreferHost,
}

/// What an allocation asks of the memory it is placed in.
#[derive(Clone, Copy, Debug, PartialEq, Eq, Structural)]
pub struct AllocationCreateInfo {
    /// `VmaAllocationCreateFlags` bits.
    pub flags: u32,
    pub usage: MemoryUsage,
    /// Memory property flags the memory must have.
    pub required_flags: u32,
    /// Memory property flags the memory should have where possible.
    pub preferred_flags: u32,
    /// Memory types that may be used, as a bit mask; 0 means any.
    pub memory_type_bits: u32,
}

impl Default for AllocationCreateInfo {
    fn default() -> (r: Self)
        ensures
            r == (AllocationCreateInfo {
                flags: 0,
                usage: MemoryUsage::Unknown,
                required_flags: 0,
                preferred_flags: 0,
                memory_type_bits: 0,
            }),
    {
        AllocationCreateInfo {
            flags: 0,
            usage: MemoryUsage::Unknown,
            required_flags: 0,
            preferred_flags: 0,
            memory_type_bits: 0,
        }
    }
}

/// Default allocation info with the given required and preferred memory flags.
pub fn allocation_info_from_flags(required_flags: u32, preferred_flags: u32) -> (r:
    AllocationCreateInfo)
    ensures
        r == (AllocationCreateInfo {
            flags: 0,
            usage: MemoryUsage::Unknown,
            required_flags,
            preferred_flags,
            memory_type_bits: 0,
        }),
{
    AllocationCreateInfo { required_flags, preferred_flags, ..AllocationCreateInfo::default() }
}

/// Allocation info for memory the host can map and access (staging buffers):
/// requires host visible memory and prefers host coherent memory, which needs no
/// flushing.
pub fn allocation_info_cpu_accessible() -> (r: AllocationCreateInfo)
    ensures
        r == (AllocationCreateInfo {
            flags: 0,
            usage: MemoryUsage::Unknown,
            required_flags: MEMORY_PROPERTY_HOST_VISIBLE,
            preferred_flags: MEMORY_PROPERTY_HOST_COHERENT,
            memory_type_bits: 0,
        }),
{
    allocation_info_from_flags(MEMORY_PROPERTY_HOST_VISIBLE, MEMORY_PROPERTY_HOST_COHERENT)
}

/// Why a cast between plain-data slices failed; the variants are those of
/// `bytemuck::PodCastError`.
#[derive(Clone, Copy, Debug, PartialEq, Eq, Structural)]
pub enum PodCastFailure {
    TargetAlignmentGreaterAndInputNotAligned,
    OutputSliceWouldHaveSlop,
    SizeMismatch,
    AlignmentMismatch,
}

impl PodCastFailure {
    /// The name of the variant, which is what `bytemuck::PodCastError` displays.
    pub open spec fn name_text(&self) -> Seq<char> {
        match self {
            PodCastFailure::TargetAlignmentGreaterAndInputNotAligned => "TargetAlignmentGreaterAndInputNotAligned"@,
            PodCastFailure::OutputSliceWouldHaveSlop => "OutputSliceWouldHaveSlop"@,
            PodCastFailure::SizeMismatch => "SizeMismatch"@,
            PodCastFailure::AlignmentMismatch => "AlignmentMismatch"@,
        }
    }

    /// The name of the variant.
    pub fn name(&self) -> (r: &'static str)
        ensures
            r@ == self.name_text(),
    {
        proof {
            reveal_strlit("TargetAlignmentGreaterAndInputNotAligned");
            reveal_strlit("OutputSliceWouldHaveSlop");
            reveal_strlit("SizeMismatch");
            reveal_strlit("AlignmentMismatch");
        }
        match self {
            PodCastFailure::TargetAlignmentGreaterAndInputNotAligned => "TargetAlignmentGreaterAndInputNotAligned",
            PodCastFailure::OutputSliceWouldHaveSlop => "OutputSliceWouldHaveSlop",
            PodCastFailure::SizeMismatch => "SizeMismatch",
            PodCastFailure::AlignmentMismatch => "AlignmentMismatch",
        }
    }
}

/// Why a read or write of an allocation's memory failed. Vulkan failures carry
/// the raw `VkResult` code.
#[derive(Debug, Clone, Copy, PartialEq, Eq, Structural)]
pub enum MemoryError {
    Mapping(i32),
    DataSizeTooBig { data_size: usize, allocation_size: u64, allocation_offset: usize },
    AllocationOffsetTooBig { allocation_size: u64, allocation_offset: usize },
    Flushing(i32),
    PodCastError(PodCastFailure),
}

impl MemoryError {
    /// The error for a failed slice cast.
    pub fn from_pod_cast_error(e: PodCastFailure) -> (r: MemoryError)
        ensures
            r == MemoryError::PodCastError(e),
    {
        MemoryError::PodCastError(e)
    }

    /// The description of the error.
    pub open spec fn message_text(&self) -> Seq<char> {
        match *self {
            MemoryError::Mapping(code) => "failed map allocation memory: "@ + vk_result_display_text(code),
            MemoryError::DataSizeTooBig { data_size, allocation_size, allocation_offset } =>
                "invalid data size access parameters: data size = "@ + decimal_text(data_size as nat)
                    + ", allocation size = "@ + decimal_text(allocation_size as nat)
                    + ", write offset = "@ + decimal_text(allocation_offset as nat),
            MemoryError::AllocationOffsetTooBig { allocation_size, allocation_offset } =>
                "allocation offset "@ + decimal_text(allocation_offset as nat)
                    + " is larger than the allocated memory "@ + decimal_text(allocation_size as nat),
            MemoryError::Flushing(code) => "failed to flush memory: "@ + vk_result_display_text(code),
            MemoryError::PodCastError(e) => "slice cast failed: "@ + e.name_text(),
        }
    }

    /// A description of the error.
    pub fn message(&self) -> (r: String)
        ensures
            r@ == self.message_text(),
    {
        proof {
            reveal_strlit("failed map allocation memory: ");
            reveal_strlit("invalid data size access parameters: data size = ");
            reveal_strlit(", allocation size = ");
            reveal_strlit(", write offset = ");
            reveal_strlit("allocation offset ");
            reveal_strlit(" is larger than the allocated memory ");
            reveal_strlit("failed to flush memory: ");
            reveal_strlit("slice cast failed: ");
        }
        match *self {
            MemoryError::Mapping(code) => {
                let mut s = "failed map allocation memory: ".to_owned();
                s.append(vk_result_text(code).as_str());
                s
            },
            MemoryError::DataSizeTooBig { data_size, allocation_size, allocation_offset } => {
                let mut s = "invalid data size access parameters: data size = ".to_owned();
                s.append(decimal_string(data_size as u64).as_str());
                s.append(", allocation size = ");
                s.append(decimal_string(allocation_size).as_str());
                s.append(", write offset = ");
                s.append(decimal_string(allocation_offset as u64).as_str());
                s
            },
            MemoryError::AllocationOffsetTooBig { allocation_size, allocation_offset } => {
                let mut s = "allocation offset ".to_owned();
                s.append(decimal_string(allocation_offset as u64).as_str());
                s.append(" is larger than the allocated memory ");
                s.append(decimal_string(allocation_size).as_str());
                s
            },
            MemoryError::Flushing(code) => {
                let mut s = "failed to flush memory: ".to_owned();
                s.append(vk_result_text(code).as_str());
                s
            },
            MemoryError::PodCastError(e) => {
                let mut s = "slice cast failed: ".to_owned();
                s.append(e.name());
                s
            },
        }
    }
}

/// Checks that `data_size` bytes starting `allocation_offset` bytes into an
/// allocation of `allocation_size` bytes stay inside it. The size is read as a
/// `usize`.
pub fn check_memory_access_parameters(
    allocation_size: u64,
    data_size: usize,
    allocation_offset: usize,
) -> (r: Result<(), MemoryError>)
    ensures
        allocation_offset > (allocation_size as usize) ==> (r matches Err(
            MemoryError::AllocationOffsetTooBig { allocation_size: s, allocation_offset: o },
        ) && s == allocation_size && o == allocation_offset),
        allocation_offset <= (allocation_size as usize) && data_size > (allocation_size as usize)
            - allocation_offset ==> (r matches Err(
            MemoryError::DataSizeTooBig { data_size: d, allocation_size: s, allocation_offset: o },
        ) && d == data_size && s == allocation_size && o == allocation_offset),
        r is Ok <==> allocation_offset + data_size <= (allocation_size as usize),
{
    let size = allocation_size as usize;
    let allocation_write_size = match size.checked_sub(allocation_offset) {
        Some(s) => s,
        None => {
            return Err(MemoryError::AllocationOffsetTooBig { allocation_size, allocation_offset });
        },
    };
    if data_size > allocation_write_size {
        return Err(MemoryError::DataSizeTooBig { data_size, allocation_size, allocation_offset });
    }
    Ok(())
}

} // verus!
