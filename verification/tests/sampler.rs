use ash::vk;
use cobra::bindless::DescriptorWrite;
use cobra::deletion::{DeleteValue, DeletionQueue};
use cobra::handles::{HandleTable, ResourceType};
use cobra::sampler::{SamplerVulkan, FILTER_LINEAR};

#[test]
fn samplers_occupy_slots_of_their_own_category() {
    let mut table = HandleTable::new();
    let mut queue = DeletionQueue::new();
    assert_eq!(table.acquire(ResourceType::Image), 0);
    let (first, first_write) = SamplerVulkan::new(&mut table, 50);
    let (second, second_write) = SamplerVulkan::new(&mut table, 51);
    assert_eq!(first.handle(), 0);
    assert_eq!(second.handle(), 1);
    assert_eq!(first.handle.ty, ResourceType::Sampler);
    assert_eq!(first_write, DescriptorWrite::Sampler { element: 0, sampler: 50 });
    assert_eq!(second_write, DescriptorWrite::Sampler { element: 1, sampler: 51 });
    first.destroy(&mut table, &mut queue);
    let (third, _) = SamplerVulkan::new(&mut table, 52);
    assert_eq!(third.handle(), 0);
    assert_eq!(queue.flush(), vec![DeleteValue::Sampler(50)]);
    assert_eq!(table.acquire(ResourceType::Image), 1);
}

#[test]
fn samplers_filter_linearly() {
    assert_eq!(FILTER_LINEAR, vk::Filter::LINEAR.as_raw());
}
