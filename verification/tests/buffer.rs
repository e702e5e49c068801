use ash::vk;
use cobra::buffer::{
    AllocationPlan, BufferCopy, BufferError, BufferVulkan, ALLOCATION_HOST_ACCESS_RANDOM,
    ALLOCATION_HOST_ACCESS_SEQUENTIAL_WRITE, ALLOCATION_MAPPED, BUFFER_USAGE, MEMORY_DEVICE_LOCAL,
    MEMORY_HOST_COHERENT, MEMORY_HOST_VISIBLE, STAGING_BUFFER_SIZE,
};
use cobra::deletion::{DeleteValue, DeletionQueue};
use cobra::types::BufferFlags;

#[test]
fn buffer_constants_match_the_driver_and_the_allocator() {
    let usage = vk::BufferUsageFlags::TRANSFER_SRC
        | vk::BufferUsageFlags::TRANSFER_DST
        | vk::BufferUsageFlags::STORAGE_BUFFER
        | vk::BufferUsageFlags::SHADER_DEVICE_ADDRESS
        | vk::BufferUsageFlags::INDEX_BUFFER
        | vk::BufferUsageFlags::INDIRECT_BUFFER;
    assert_eq!(BUFFER_USAGE, usage.as_raw());
    assert_eq!(MEMORY_DEVICE_LOCAL, vk::MemoryPropertyFlags::DEVICE_LOCAL.as_raw());
    assert_eq!(MEMORY_HOST_VISIBLE, vk::MemoryPropertyFlags::HOST_VISIBLE.as_raw());
    assert_eq!(MEMORY_HOST_COHERENT, vk::MemoryPropertyFlags::HOST_COHERENT.as_raw());
    assert_eq!(ALLOCATION_MAPPED, vk_mem::AllocationCreateFlags::MAPPED.bits());
    assert_eq!(
        ALLOCATION_HOST_ACCESS_RANDOM,
        vk_mem::AllocationCreateFlags::HOST_ACCESS_RANDOM.bits()
    );
    assert_eq!(
        ALLOCATION_HOST_ACCESS_SEQUENTIAL_WRITE,
        vk_mem::AllocationCreateFlags::HOST_ACCESS_SEQUENTIAL_WRITE.bits()
    );
    assert_eq!(STAGING_BUFFER_SIZE, 64 * 1024 * 1024);
}

#[test]
fn each_kind_of_buffer_asks_for_its_memory() {
    assert_eq!(
        BufferVulkan::init(256, BufferFlags::Default),
        AllocationPlan { size: 256, usage: 0x20163, flags: 0, required_flags: 1 }
    );
    let host = ALLOCATION_MAPPED | ALLOCATION_HOST_ACCESS_RANDOM;
    assert_eq!(
        BufferVulkan::init(64, BufferFlags::Upload),
        AllocationPlan { size: 64, usage: 0x20163, flags: host, required_flags: 4 }
    );
    assert_eq!(
        BufferVulkan::init(64, BufferFlags::Readback),
        AllocationPlan { size: 64, usage: 0x20163, flags: host, required_flags: 4 }
    );
    assert_eq!(
        BufferVulkan::init(1, BufferFlags::DeviceUpload),
        AllocationPlan {
            size: 1,
            usage: 0x20163,
            flags: ALLOCATION_MAPPED | ALLOCATION_HOST_ACCESS_SEQUENTIAL_WRITE,
            required_flags: 5,
        }
    );
}

#[test]
fn sixty_four_bytes_are_staged_and_copied_to_the_offset() {
    let buffer = BufferVulkan::new(1, 2, 256, 0xdead_0000, true);
    assert_eq!(
        buffer.set(STAGING_BUFFER_SIZE, 64, 0),
        Ok(BufferCopy { src_offset: 0, dst_offset: 0, size: 64 })
    );
    assert_eq!(
        buffer.set(STAGING_BUFFER_SIZE, 64, 192),
        Ok(BufferCopy { src_offset: 0, dst_offset: 192, size: 64 })
    );
    assert_eq!(
        buffer.set(STAGING_BUFFER_SIZE, 0, 256),
        Ok(BufferCopy { src_offset: 0, dst_offset: 256, size: 0 })
    );
}

#[test]
fn uploads_that_do_not_fit_are_refused() {
    let buffer = BufferVulkan::new(1, 2, 256, 0, false);
    assert_eq!(buffer.set(STAGING_BUFFER_SIZE, 64, 193), Err(BufferError::OutOfBounds));
    assert_eq!(buffer.set(STAGING_BUFFER_SIZE, 257, 0), Err(BufferError::OutOfBounds));
    assert_eq!(buffer.set(STAGING_BUFFER_SIZE, 1, u64::MAX), Err(BufferError::OutOfBounds));
    assert_eq!(buffer.set(32, 33, 0), Err(BufferError::StagingTooSmall));
    assert_eq!(buffer.set(32, 300, 0), Err(BufferError::StagingTooSmall));
    assert_eq!(buffer.set(32, 32, 0), Ok(BufferCopy { src_offset: 0, dst_offset: 0, size: 32 }));
}

#[test]
fn buffer_reports_what_it_was_made_with() {
    let buffer = BufferVulkan::new(10, 20, 48, 0x1000, true);
    assert_eq!(buffer.allocation, (10, 20));
    assert_eq!(buffer.size(), 48);
    assert_eq!(buffer.device_address(), 0x1000);
    assert!(buffer.mapped);
    assert_eq!(buffer.host_slice_len(1), 48);
    assert_eq!(buffer.host_slice_len(4), 12);
    assert_eq!(buffer.host_slice_len(5), 9);
    assert_eq!(buffer.host_slice_len(64), 0);
    let mut queue = DeletionQueue::new();
    buffer.destroy(&mut queue);
    assert_eq!(queue.flush(), vec![DeleteValue::Buffer((10, 20))]);
}
