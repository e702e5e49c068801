//! Buffers: where their memory is asked to live, and the staging path by
//! which the host fills buffers that it cannot write to directly.

use vstd::prelude::*;
use crate::deletion::{DeleteValue, DeletionQueue};
use crate::types::BufferFlags;

verus! {

/// Size in bytes of the staging buffer that a context owns.
pub const STAGING_BUFFER_SIZE: u64 = 67108864;

/// The driver's usage mask of every buffer: source and destination of
/// transfers, storage buffer, index buffer, indirect buffer, and readable by
/// its device address.
pub const BUFFER_USAGE: u32 = 0x20163;

/// The driver's bit of device-local memory.
pub const MEMORY_DEVICE_LOCAL: u32 = 0x1;

/// The driver's bit of host-visible memory.
pub const MEMORY_HOST_VISIBLE: u32 = 0x2;

/// The driver's bit of host-coherent memory.
pub const MEMORY_HOST_COHERENT: u32 = 0x4;

/// The allocator's bit for memory that stays mapped.
pub const ALLOCATION_MAPPED: u32 = 0x4;

/// The allocator's bit for memory that the host only writes front to back.
pub const ALLOCATION_HOST_ACCESS_SEQUENTIAL_WRITE: u32 = 0x400;

/// The allocator's bit for memory that the host reads and writes at will.
pub const ALLOCATION_HOST_ACCESS_RANDOM: u32 = 0x800;

/// What the memory allocator is asked for when a buffer is created.
#[derive(Clone, Copy, Debug, PartialEq, Eq, Structural)]
pub struct AllocationPlan {
    /// Size of the buffer in bytes.
    pub size: u64,
    /// The driver's usage mask of the buffer.
    pub usage: u32,
    /// The allocator's flags.
    pub flags: u32,
    /// The driver's memory properties that the memory must have.
    pub required_flags: u32,
}

/// One region to copy from the start of a source buffer into a destination.
#[derive(Clone, Copy, Debug, PartialEq, Eq, Structural)]
pub struct BufferCopy {
    pub src_offset: u64,
    pub dst_offset: u64,
    pub size: u64,
}

/// Why a buffer operation was refused.
#[derive(Clone, Copy, Debug, PartialEq, Eq, Structural)]
pub enum BufferError {
    /// The data does not fit into the staging buffer.
    StagingTooSmall,
    /// The data does not fit into the buffer at the given offset.
    OutOfBounds,
}

/// The allocator's flags for a buffer of the given kind.
pub open spec fn spec_allocation_flags(flags: BufferFlags) -> u32 {
    match flags {
        BufferFlags::Default => 0,
        BufferFlags::Upload => 0x804,
        BufferFlags::Readback => 0x804,
        BufferFlags::DeviceUpload => 0x404,
    }
}

/// The memory properties that a buffer of the given kind must have.
pub open spec fn spec_required_flags(flags: BufferFlags) -> u32 {
    match flags {
        BufferFlags::Default => MEMORY_DEVICE_LOCAL,
        BufferFlags::Upload => MEMORY_HOST_COHERENT,
        BufferFlags::Readback => MEMORY_HOST_COHERENT,
        BufferFlags::DeviceUpload => 0x5,
    }
}

/// Whether the host can reach the memory of a buffer of the given kind.
pub open spec fn spec_is_mapped(flags: BufferFlags) -> bool {
    flags != BufferFlags::Default
}

/// A buffer, its memory and where the host and the device find it.
#[derive(Debug)]
pub struct BufferVulkan {
    /// The driver's buffer and its memory allocation.
    pub allocation: (u64, u64),
    /// Whether the memory is mapped into the host's address space.
    pub mapped: bool,
    pub size: u64,
    /// The address at which the device finds the buffer.
    pub address: u64,
}

impl BufferVulkan {
    /// What to ask the memory allocator for to create a buffer.
    pub fn init(size: u64, flags: BufferFlags) -> (plan: AllocationPlan)
        ensures
            plan == (AllocationPlan {
                size,
                usage: BUFFER_USAGE,
                flags: spec_allocation_flags(flags),
                required_flags: spec_required_flags(flags),
            }),
    {
        let (allocation_flags, required_flags) = match flags {
            BufferFlags::Default => (0, MEMORY_DEVICE_LOCAL),
            BufferFlags::Upload | BufferFlags::Readback => (0x804, MEMORY_HOST_COHERENT),
            BufferFlags::DeviceUpload => (0x404, 0x5),
        };
        AllocationPlan { size, usage: BUFFER_USAGE, flags: allocation_flags, required_flags }
    }

    /// Takes over a buffer that the memory allocator created.
    pub fn new(buffer: u64, allocation: u64, size: u64, address: u64, mapped: bool) -> (made:
        BufferVulkan)
        ensures
            made.allocation == (buffer, allocation),
            made.mapped == mapped,
            made.size == size,
            made.address == address,
    {
        BufferVulkan { allocation: (buffer, allocation), mapped, size, address }
    }

    /// The address at which the device finds the buffer.
    pub fn device_address(&self) -> (address: u64)
        ensures
            address == self.address,
    {
        self.address
    }

    /// Size of the buffer in bytes.
    pub fn size(&self) -> (size: u64)
        ensures
            size == self.size,
    {
        self.size
    }

    /// Number of whole elements of the given size that the buffer holds.
    pub fn host_slice_len(&self, element_size: u64) -> (count: u64)
        requires
            element_size > 0,
        ensures
            count == self.size / element_size,
    {
        self.size / element_size
    }

    /// The copy that brings `byte_len` bytes, written to the start of a
    /// staging buffer of `staging_size` bytes, to `buffer_offset` in this
    /// buffer.
    pub open spec fn spec_set(&self, staging_size: u64, byte_len: u64, buffer_offset: u64) -> Result<
        BufferCopy,
        BufferError,
    > {
        if byte_len > staging_size {
            Err(BufferError::StagingTooSmall)
        } else if buffer_offset + byte_len > self.size {
            Err(BufferError::OutOfBounds)
        } else {
            Ok(BufferCopy { src_offset: 0, dst_offset: buffer_offset, size: byte_len })
        }
    }

    /// Plans filling the buffer through a staging buffer: the data goes to
    /// the start of the staging buffer, and one copy brings it to
    /// `buffer_offset` in this buffer. Data that does not fit into the
    /// staging buffer, or into this buffer at the offset, is refused.
    pub fn set(&self, staging_size: u64, byte_len: u64, buffer_offset: u64) -> (copy: Result<
        BufferCopy,
        BufferError,
    >)
        ensures
            copy == self.spec_set(staging_size, byte_len, buffer_offset),
    {
        if byte_len > staging_size {
            Err(BufferError::StagingTooSmall)
        } else if buffer_offset > self.size || byte_len > self.size - buffer_offset {
            Err(BufferError::OutOfBounds)
        } else {
            Ok(BufferCopy { src_offset: 0, dst_offset: buffer_offset, size: byte_len })
        }
    }

    /// Ends the buffer: queues it, with its memory, for destruction.
    pub fn destroy(self, deletion_queue: &mut DeletionQueue)
        ensures
            final(deletion_queue)@ == old(deletion_queue)@.push(DeleteValue::Buffer(self.allocation)),
    {
        deletion_queue.push(DeleteValue::Buffer(self.allocation));
    }
}

/// The bytes of a buffer after a region was copied into it.
pub open spec fn after_copy(dst: Seq<u8>, src: Seq<u8>, copy: BufferCopy) -> Seq<u8> {
    Seq::new(
        dst.len(),
        |i: int|
            if copy.dst_offset <= i < copy.dst_offset + copy.size {
                src[i - copy.dst_offset + copy.src_offset]
            } else {
                dst[i]
            },
    )
}

/// A planned upload stays within the staging buffer and within the buffer.
pub proof fn law_planned_upload_is_in_bounds(
    buffer: BufferVulkan,
    staging_size: u64,
    byte_len: u64,
    buffer_offset: u64,
)
    ensures
        buffer.spec_set(staging_size, byte_len, buffer_offset) matches Ok(copy) ==> copy.src_offset
            + copy.size <= staging_size && copy.dst_offset + copy.size <= buffer.size && copy.size
            == byte_len && copy.dst_offset == buffer_offset,
        buffer.spec_set(staging_size, byte_len, buffer_offset) is Ok <==> byte_len <= staging_size
            && buffer_offset + byte_len <= buffer.size,
{
}

/// Where copies move bytes as [`after_copy`] says, data that is staged,
/// copied into a buffer as planned and then copied back out of the same
/// place comes back byte for byte, and the copy into the buffer changes no
/// byte outside the region.
pub proof fn law_upload_then_readback_returns_the_data(
    data: Seq<u8>,
    staging: Seq<u8>,
    buffer: Seq<u8>,
    readback: Seq<u8>,
    buffer_offset: u64,
)
    requires
        data.len() <= staging.len(),
        buffer_offset + data.len() <= buffer.len(),
        data.len() <= readback.len(),
        data.len() <= u64::MAX,
    ensures
        ({
            let staged = Seq::new(
                staging.len(),
                |i: int|
                    if i < data.len() {
                        data[i]
                    } else {
                        staging[i]
                    },
            );
            let up = BufferCopy {
                src_offset: 0,
                dst_offset: buffer_offset,
                size: data.len() as u64,
            };
            let down = BufferCopy {
                src_offset: buffer_offset,
                dst_offset: 0,
                size: data.len() as u64,
            };
            let filled = after_copy(buffer, staged, up);
            &&& after_copy(readback, filled, down).subrange(0, data.len() as int) == data
            &&& forall|i: int|
                0 <= i < buffer.len() && !(buffer_offset <= i < buffer_offset + data.len())
                    ==> filled[i] == buffer[i]
        }),
{
    let staged = Seq::new(
        staging.len(),
        |i: int|
            if i < data.len() {
                data[i]
            } else {
                staging[i]
            },
    );
    let up = BufferCopy { src_offset: 0, dst_offset: buffer_offset, size: data.len() as u64 };
    let down = BufferCopy { src_offset: buffer_offset, dst_offset: 0, size: data.len() as u64 };
    let filled = after_copy(buffer, staged, up);
    assert(after_copy(readback, filled, down).subrange(0, data.len() as int) =~= data);
}

} // verus!
