//! Layout of the bindless descriptor table and the writes that fill it.

use vstd::prelude::*;
use crate::handles::{IMAGE_CAPACITY, SAMPLER_CAPACITY};

verus! {

/// Binding of the sampler array in the bindless descriptor set.
pub const SAMPLER_BINDING: u32 = 0;

/// Binding of the storage image array in the bindless descriptor set.
pub const STORAGE_IMAGE_BINDING: u32 = 1;

/// Binding of the sampled image array in the bindless descriptor set.
pub const SAMPLED_IMAGE_BINDING: u32 = 2;

/// The driver's code of the sampler descriptor type.
pub const DESCRIPTOR_TYPE_SAMPLER: i32 = 0;

/// The driver's code of the sampled image descriptor type.
pub const DESCRIPTOR_TYPE_SAMPLED_IMAGE: i32 = 2;

/// The driver's code of the storage image descriptor type.
pub const DESCRIPTOR_TYPE_STORAGE_IMAGE: i32 = 3;

/// Size in bytes of the push constant range that every pipeline shares.
pub const PUSH_CONSTANT_SIZE: u32 = 128;

/// One array of the bindless descriptor set.
#[derive(Clone, Copy, Debug, PartialEq, Eq, Structural)]
pub struct BindingInfo {
    /// The driver's code of the descriptor type.
    pub descriptor_type: i32,
    /// Number of slots of the array.
    pub count: u32,
    /// Binding of the array in the set.
    pub binding: u32,
}

/// The arrays of the bindless descriptor set, by binding.
pub open spec fn spec_binding_infos() -> Seq<BindingInfo> {
    seq![
        BindingInfo {
            descriptor_type: DESCRIPTOR_TYPE_SAMPLER,
            count: SAMPLER_CAPACITY,
            binding: SAMPLER_BINDING,
        },
        BindingInfo {
            descriptor_type: DESCRIPTOR_TYPE_STORAGE_IMAGE,
            count: IMAGE_CAPACITY,
            binding: STORAGE_IMAGE_BINDING,
        },
        BindingInfo {
            descriptor_type: DESCRIPTOR_TYPE_SAMPLED_IMAGE,
            count: IMAGE_CAPACITY,
            binding: SAMPLED_IMAGE_BINDING,
        },
    ]
}

/// The arrays of the bindless descriptor set, by binding.
pub fn binding_infos() -> (infos: Vec<BindingInfo>)
    ensures
        infos@ == spec_binding_infos(),
{
    let mut infos: Vec<BindingInfo> = Vec::new();
    infos.push(
        BindingInfo {
            descriptor_type: DESCRIPTOR_TYPE_SAMPLER,
            count: SAMPLER_CAPACITY,
            binding: SAMPLER_BINDING,
        },
    );
    infos.push(
        BindingInfo {
            descriptor_type: DESCRIPTOR_TYPE_STORAGE_IMAGE,
            count: IMAGE_CAPACITY,
            binding: STORAGE_IMAGE_BINDING,
        },
    );
    infos.push(
        BindingInfo {
            descriptor_type: DESCRIPTOR_TYPE_SAMPLED_IMAGE,
            count: IMAGE_CAPACITY,
            binding: SAMPLED_IMAGE_BINDING,
        },
    );
    assert(infos@ =~= spec_binding_infos());
    infos
}

/// One slot of the bindless descriptor set to fill.
#[derive(Clone, Copy, Debug, PartialEq, Eq, Structural)]
pub enum DescriptorWrite {
    /// Put the sampler into the given slot of the sampler array.
    Sampler { element: u32, sampler: u64 },
    /// Put the view into the given slot of the storage image array.
    StorageImage { element: u32, view: u64 },
    /// Put the view into the given slot of the sampled image array.
    SampledImage { element: u32, view: u64 },
}

impl DescriptorWrite {
    /// Binding of the array that the write goes to.
    pub open spec fn spec_binding(self) -> u32 {
        match self {
            DescriptorWrite::Sampler { .. } => SAMPLER_BINDING,
            DescriptorWrite::StorageImage { .. } => STORAGE_IMAGE_BINDING,
            DescriptorWrite::SampledImage { .. } => SAMPLED_IMAGE_BINDING,
        }
    }

    /// Binding of the array that the write goes to.
    #[verifier::when_used_as_spec(spec_binding)]
    pub fn binding(self) -> (binding: u32)
        ensures
            binding == self.spec_binding(),
    {
        match self {
            DescriptorWrite::Sampler { .. } => SAMPLER_BINDING,
            DescriptorWrite::StorageImage { .. } => STORAGE_IMAGE_BINDING,
            DescriptorWrite::SampledImage { .. } => SAMPLED_IMAGE_BINDING,
        }
    }

    /// The driver's code of the descriptor type that the write stores.
    pub open spec fn spec_descriptor_type(self) -> i32 {
        match self {
            DescriptorWrite::Sampler { .. } => DESCRIPTOR_TYPE_SAMPLER,
            DescriptorWrite::StorageImage { .. } => DESCRIPTOR_TYPE_STORAGE_IMAGE,
            DescriptorWrite::SampledImage { .. } => DESCRIPTOR_TYPE_SAMPLED_IMAGE,
        }
    }

    /// The driver's code of the descriptor type that the write stores.
    #[verifier::when_used_as_spec(spec_descriptor_type)]
    pub fn descriptor_type(self) -> (code: i32)
        ensures
            code == self.spec_descriptor_type(),
    {
        match self {
            DescriptorWrite::Sampler { .. } => DESCRIPTOR_TYPE_SAMPLER,
            DescriptorWrite::StorageImage { .. } => DESCRIPTOR_TYPE_STORAGE_IMAGE,
            DescriptorWrite::SampledImage { .. } => DESCRIPTOR_TYPE_SAMPLED_IMAGE,
        }
    }

    /// The slot that the write fills.
    pub open spec fn spec_element(self) -> u32 {
        match self {
            DescriptorWrite::Sampler { element, .. } => element,
            DescriptorWrite::StorageImage { element, .. } => element,
            DescriptorWrite::SampledImage { element, .. } => element,
        }
    }

    /// The slot that the write fills.
    #[verifier::when_used_as_spec(spec_element)]
    pub fn element(self) -> (element: u32)
        ensures
            element == self.spec_element(),
    {
        match self {
            DescriptorWrite::Sampler { element, .. } => element,
            DescriptorWrite::StorageImage { element, .. } => element,
            DescriptorWrite::SampledImage { element, .. } => element,
        }
    }
}

/// Every array of the set is stored under its own binding, in the order of
/// the bindings, with the descriptor type that writes to it store.
pub proof fn law_bindings_match_their_arrays(write: DescriptorWrite)
    ensures
        write.spec_binding() < spec_binding_infos().len(),
        spec_binding_infos()[write.spec_binding() as int].binding == write.spec_binding(),
        spec_binding_infos()[write.spec_binding() as int].descriptor_type
            == write.spec_descriptor_type(),
{
}

} // verus!
