use vstd::prelude::*;

verus! {

/// Usage bit: the device should reach the memory fast.
pub const USAGE_FAST_DEVICE_ACCESS: u8 = 0x01;

/// Usage bit: the host reads or writes the memory.
pub const USAGE_HOST_ACCESS: u8 = 0x02;

/// Usage bit: the host reads results back from the memory.
pub const USAGE_DOWNLOAD: u8 = 0x04;

/// Usage bit: the host writes data for the device into the memory.
pub const USAGE_UPLOAD: u8 = 0x08;

/// Usage bit: the memory is held for a short time only.
pub const USAGE_TRANSIENT: u8 = 0x10;

/// Usage bit: the memory can be reached by a device address.
pub const USAGE_DEVICE_ADDRESS: u8 = 0x20;

/// What the device requires of the memory behind an image or a buffer.
#[derive(Clone, Copy, Debug, PartialEq, Eq, Structural)]
pub struct MemoryRequirements {
    /// The size of the memory needed, in bytes.
    pub size: u64,
    /// The alignment of the memory needed, in bytes.
    pub alignment: u64,
    /// One bit for each memory type that the resource can live in.
    pub memory_type_bits: u32,
}

/// A request to the allocator.
#[derive(Clone, Copy, Debug, PartialEq, Eq, Structural)]
pub struct Request {
    /// The least size of the block, in bytes.
    pub size: u64,
    /// The alignment asked of the block, as a mask: one less than the
    /// alignment in bytes, so that an offset is aligned where it has none of
    /// the mask's bits.
    pub align_mask: u64,
    /// What the memory is meant for: usage bits.
    pub usage: u8,
    /// One bit for each memory type that the block may come from.
    pub memory_types: u32,
}

/// The mask of an alignment: one less than the alignment. An alignment of 0
/// asks for nothing, as an alignment of 1 does, and has the empty mask.
pub open spec fn alignment_mask(alignment: u64) -> u64 {
    if alignment == 0 {
        0
    } else {
        (alignment - 1) as u64
    }
}

/// The request for memory that meets `requirements` and is used as `usage`
/// says: size, alignment and memory types are those that the device
/// requires, none of them guessed.
pub open spec fn memory_request(requirements: MemoryRequirements, usage: u8) -> Request {
    Request {
        size: requirements.size,
        align_mask: alignment_mask(requirements.alignment),
        usage,
        memory_types: requirements.memory_type_bits,
    }
}

/// Forms the request to the allocator from a resource's memory requirements
/// and its intended usage.
pub fn request_from_usage_requirements(requirements: MemoryRequirements, usage: u8) -> (request:
    Request)
    ensures
        request == memory_request(requirements, usage),
{
    let align_mask = if requirements.alignment == 0 {
        0
    } else {
        requirements.alignment - 1
    };
    Request {
        size: requirements.size,
        align_mask,
        usage,
        memory_types: requirements.memory_type_bits,
    }
}

/// Forms the request for the memory of an image from what the device
/// requires for it.
pub fn image_memory_req(requirements: MemoryRequirements, usage: u8) -> (request: Request)
    ensures
        request == memory_request(requirements, usage),
{
    request_from_usage_requirements(requirements, usage)
}

/// Forms the request for the memory of a buffer from what the device
/// requires for it.
pub fn buffer_memory_req(requirements: MemoryRequirements, usage: u8) -> (request: Request)
    ensures
        request == memory_request(requirements, usage),
{
    request_from_usage_requirements(requirements, usage)
}

} // verus!
