//! Values that shaders read: the packed handles through which a shader
//! finds an image, alone or together with a sampler, in the bindless tables.
//!
//! A handle is one 32-bit word. Its low 20 bits hold the slot of the image,
//! the 12 bits above them the slot of the sampler.

use vstd::prelude::*;
use crate::handles::{IMAGE_CAPACITY, SAMPLER_CAPACITY};
use crate::image::ImageVulkan;
use crate::sampler::SamplerVulkan;

verus! {

/// Number of bits of a packed handle that hold the slot of the image.
pub const IMAGE_SLOT_BITS: u32 = 20;

/// A device address that a shader reads values of type `T` from.
#[derive(Debug)]
pub struct Ptr<T> {
    pub _phantom: core::marker::PhantomData<T>,
}

impl<T> Ptr<T> {
    /// A pointer that was not given an address yet.
    pub fn new() -> (made: Ptr<T>) {
        Ptr { _phantom: core::marker::PhantomData }
    }
}

impl<T> Clone for Ptr<T> {
    fn clone(&self) -> (copy: Ptr<T>) {
        Ptr { _phantom: core::marker::PhantomData }
    }
}

impl<T> Copy for Ptr<T> {

}

/// The packed handle of an image for shaders.
#[derive(Clone, Copy, Debug, PartialEq, Eq, Structural)]
pub struct ImageHandle {
    pub _handle: u32,
}

/// The word that packs the slot of an image with the slot of a sampler.
pub open spec fn pack(image_slot: u32, sampler_slot: u32) -> u32 {
    image_slot | (sampler_slot << 20u32)
}

impl ImageHandle {
    /// The handle of a storage image: the slot of the image.
    pub fn new_storage(image: &ImageVulkan) -> (handle: ImageHandle)
        requires
            image.handle is Some,
        ensures
            handle._handle == image.handle->0.id,
    {
        Self::new(image.handle().unwrap())
    }

    /// The handle of an image sampled through a sampler: the slot of the
    /// image in the low bits, the slot of the sampler above them.
    pub fn new_sampled(image: &ImageVulkan, sampler: &SamplerVulkan) -> (handle: ImageHandle)
        requires
            image.handle is Some,
        ensures
            handle._handle == pack(image.handle->0.id, sampler.handle.id),
    {
        Self::new(image.handle().unwrap() | (sampler.handle() << 20u32))
    }

    /// The handle of the storage image in the given slot.
    pub fn new_storage_from_handle(handle: u32) -> (made: ImageHandle)
        ensures
            made._handle == handle,
    {
        Self::new(handle)
    }

    /// The handle that is the given word.
    pub fn new(handle: u32) -> (made: ImageHandle)
        ensures
            made._handle == handle,
    {
        ImageHandle { _handle: handle }
    }

    /// The slot of the image that the handle names.
    pub fn image_slot(&self) -> (slot: u32)
        ensures
            slot == self._handle & 0xfffff,
    {
        self._handle & 0xfffff
    }

    /// The slot of the sampler that the handle names.
    pub fn sampler_slot(&self) -> (slot: u32)
        ensures
            slot == self._handle >> 20u32,
    {
        self._handle >> 20u32
    }
}

/// Slots within the capacities of the bindless tables are packed without
/// loss: both can be read back from the word, so different pairs of slots
/// give different handles.
pub proof fn law_packed_slots_are_recovered(image_slot: u32, sampler_slot: u32)
    requires
        image_slot < IMAGE_CAPACITY,
        sampler_slot < SAMPLER_CAPACITY,
    ensures
        pack(image_slot, sampler_slot) & 0xfffff == image_slot,
        pack(image_slot, sampler_slot) >> 20u32 == sampler_slot,
{
    assert(image_slot < 1048576 && sampler_slot < 4096 ==> ((image_slot | (sampler_slot << 20u32))
        & 0xfffff == image_slot) && ((image_slot | (sampler_slot << 20u32)) >> 20u32
        == sampler_slot)) by (bit_vector);
}

/// The handle of a storage image is its slot: a slot within the capacity of
/// the image table is a handle that names no sampler.
pub proof fn law_storage_handle_names_no_sampler(image_slot: u32)
    requires
        image_slot < IMAGE_CAPACITY,
    ensures
        pack(image_slot, 0) == image_slot,
        image_slot >> 20u32 == 0,
{
    assert(image_slot < 1048576 ==> (image_slot | (0u32 << 20u32)) == image_slot && image_slot
        >> 20u32 == 0) by (bit_vector);
}

} // verus!
