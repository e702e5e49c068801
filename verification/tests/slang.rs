use cobra::handles::HandleTable;
use cobra::image::ImageVulkan;
use cobra::sampler::SamplerVulkan;
use cobra::slang::{ImageHandle, Ptr, IMAGE_SLOT_BITS};
use cobra::types::{Extent, ImageFormat, ImageUsage};

fn storage_image(table: &mut HandleTable) -> ImageVulkan {
    ImageVulkan::new(
        table,
        1,
        2,
        3,
        Extent { width: 4, height: 4 },
        ImageFormat::R32Sint,
        ImageUsage::storage().union(ImageUsage::sampled()),
    )
    .0
}

#[test]
fn storage_handle_is_the_slot_of_the_image() {
    let mut table = HandleTable::new();
    let _first = storage_image(&mut table);
    let second = storage_image(&mut table);
    let handle = ImageHandle::new_storage(&second);
    assert_eq!(handle._handle, 1);
    assert_eq!(handle.image_slot(), 1);
    assert_eq!(handle.sampler_slot(), 0);
    assert_eq!(ImageHandle::new_storage_from_handle(77)._handle, 77);
    assert_eq!(ImageHandle::new(78)._handle, 78);
}

#[test]
fn sampled_handle_packs_the_sampler_above_the_image() {
    let mut table = HandleTable::new();
    let _a = storage_image(&mut table);
    let _b = storage_image(&mut table);
    let image = storage_image(&mut table);
    let _s0 = SamplerVulkan::new(&mut table, 10);
    let (sampler, _) = SamplerVulkan::new(&mut table, 11);
    let handle = ImageHandle::new_sampled(&image, &sampler);
    assert_eq!(handle._handle, 2 | (1 << 20));
    assert_eq!(handle._handle, 1048578);
    assert_eq!(handle.image_slot(), 2);
    assert_eq!(handle.sampler_slot(), 1);
    assert_eq!(IMAGE_SLOT_BITS, 20);
}

#[test]
fn largest_slots_are_packed_without_loss() {
    let handle = ImageHandle::new((1048575) | (4095 << 20));
    assert_eq!(handle._handle, u32::MAX);
    assert_eq!(handle.image_slot(), 1048575);
    assert_eq!(handle.sampler_slot(), 4095);
}

#[test]
fn shader_pointers_are_plain_values() {
    let pointer: Ptr<u32> = Ptr::new();
    let copy = pointer;
    let _again = pointer.clone();
    let _ = copy;
}
