//! The driver's numeric codes for the library's descriptions.
//!
//! The driver identifies formats, blend factors and the like by the numbers
//! its interface standard assigns to them. The functions here give, for each
//! description of the library, that number.

use vstd::prelude::*;
use crate::types::{
    BlendFactor, BlendOp, CompareOperation, ImageFormat, ImageUsage, IndexType, PipelineStage,
};

verus! {

/// The driver's code of a texel format.
pub open spec fn spec_image_format_to_vulkan(format: ImageFormat) -> i32 {
    match format {
        ImageFormat::Unknown => 0,
        ImageFormat::R32Sint => 99,
        ImageFormat::R16G16B16A16Sfloat => 97,
        ImageFormat::R16G16B16A16Unorm => 91,
        ImageFormat::R8G8B8A8Unorm => 37,
        ImageFormat::B8G8R8A8Srgb => 50,
        ImageFormat::D32SFloat => 126,
    }
}

/// The driver's code of a texel format.
#[verifier::when_used_as_spec(spec_image_format_to_vulkan)]
pub fn image_format_to_vulkan(format: ImageFormat) -> (code: i32)
    ensures
        code == spec_image_format_to_vulkan(format),
{
    match format {
        ImageFormat::Unknown => 0,
        ImageFormat::R32Sint => 99,
        ImageFormat::R16G16B16A16Sfloat => 97,
        ImageFormat::R16G16B16A16Unorm => 91,
        ImageFormat::R8G8B8A8Unorm => 37,
        ImageFormat::B8G8R8A8Srgb => 50,
        ImageFormat::D32SFloat => 126,
    }
}

/// The driver's bit for one usage flag, if `usages` holds the flag.
pub open spec fn usage_bit(usages: ImageUsage, flag: u32, driver_bit: u32) -> u32 {
    if usages.bits & flag == flag {
        driver_bit
    } else {
        0
    }
}

/// The driver's usage mask: the union of the driver's bits of the flags that
/// `usages` holds.
pub open spec fn spec_image_usage_to_vulkan(usages: ImageUsage) -> u32 {
    usage_bit(usages, 1, 0x10) | usage_bit(usages, 2, 0x20) | usage_bit(usages, 4, 0x1)
        | usage_bit(usages, 8, 0x2) | usage_bit(usages, 16, 0x8) | usage_bit(usages, 32, 0x4)
}

/// One term of the driver's usage mask.
fn usage_term(usages: ImageUsage, flag: u32, driver_bit: u32) -> (bit: u32)
    ensures
        bit == usage_bit(usages, flag, driver_bit),
{
    if usages.bits & flag == flag {
        driver_bit
    } else {
        0
    }
}

/// The driver's usage mask of a set of usage flags without unnamed bits.
#[verifier::when_used_as_spec(spec_image_usage_to_vulkan)]
pub fn image_usage_to_vulkan(usages: ImageUsage) -> (mask: u32)
    requires
        usages.is_known(),
    ensures
        mask == spec_image_usage_to_vulkan(usages),
{
    usage_term(usages, 1, 0x10) | usage_term(usages, 2, 0x20) | usage_term(usages, 4, 0x1)
        | usage_term(usages, 8, 0x2) | usage_term(usages, 16, 0x8) | usage_term(usages, 32, 0x4)
}

/// The driver's code of a blend factor.
pub open spec fn spec_blend_factor_to_vulkan(blend_factor: BlendFactor) -> i32 {
    match blend_factor {
        BlendFactor::Zero => 0,
        BlendFactor::One => 1,
        BlendFactor::SrcAlpha => 6,
        BlendFactor::DstAlpha => 8,
        BlendFactor::OneMinusSrcAlpha => 7,
    }
}

/// The driver's code of a blend factor.
#[verifier::when_used_as_spec(spec_blend_factor_to_vulkan)]
pub fn blend_factor_to_vulkan(blend_factor: BlendFactor) -> (code: i32)
    ensures
        code == spec_blend_factor_to_vulkan(blend_factor),
{
    match blend_factor {
        BlendFactor::Zero => 0,
        BlendFactor::One => 1,
        BlendFactor::SrcAlpha => 6,
        BlendFactor::DstAlpha => 8,
        BlendFactor::OneMinusSrcAlpha => 7,
    }
}

/// The driver's code of a blend operator.
pub open spec fn spec_blend_op_to_vulkan(blend_op: BlendOp) -> i32 {
    match blend_op {
        BlendOp::Add => 0,
    }
}

/// The driver's code of a blend operator.
#[verifier::when_used_as_spec(spec_blend_op_to_vulkan)]
pub fn blend_op_to_vulkan(blend_op: BlendOp) -> (code: i32)
    ensures
        code == spec_blend_op_to_vulkan(blend_op),
{
    match blend_op {
        BlendOp::Add => 0,
    }
}

/// The driver's code of a depth comparison.
pub open spec fn spec_compare_op_to_vulkan(compare_op: CompareOperation) -> i32 {
    match compare_op {
        CompareOperation::Never => 0,
        CompareOperation::Greater => 4,
        CompareOperation::GreaterEqual => 6,
        CompareOperation::LesserEqual => 3,
    }
}

/// The driver's code of a depth comparison.
#[verifier::when_used_as_spec(spec_compare_op_to_vulkan)]
pub fn compare_op_to_vulkan(compare_op: CompareOperation) -> (code: i32)
    ensures
        code == spec_compare_op_to_vulkan(compare_op),
{
    match compare_op {
        CompareOperation::Never => 0,
        CompareOperation::Greater => 4,
        CompareOperation::GreaterEqual => 6,
        CompareOperation::LesserEqual => 3,
    }
}

/// The driver's code of an index width.
pub open spec fn spec_index_type_to_vulkan(ty: IndexType) -> i32 {
    match ty {
        IndexType::U16 => 0,
        IndexType::U32 => 1,
    }
}

/// The driver's code of an index width.
#[verifier::when_used_as_spec(spec_index_type_to_vulkan)]
pub fn index_type_to_vulkan(ty: IndexType) -> (code: i32)
    ensures
        code == spec_index_type_to_vulkan(ty),
{
    match ty {
        IndexType::U16 => 0,
        IndexType::U32 => 1,
    }
}

/// The driver's bit for one group of device work, if `stages` holds it.
pub open spec fn stage_bit(stages: PipelineStage, flag: u32, driver_bit: u64) -> u64 {
    if stages.bits & flag == flag {
        driver_bit
    } else {
        0
    }
}

/// The driver's stage mask: the union of the driver's bits of the groups that
/// `stages` holds.
pub open spec fn spec_pipeline_stage_to_vulkan(stages: PipelineStage) -> u64 {
    stage_bit(stages, 1, 0x800) | stage_bit(stages, 2, 0x1000) | stage_bit(stages, 4, 0x8000)
}

/// One term of the driver's stage mask.
fn stage_term(stages: PipelineStage, flag: u32, driver_bit: u64) -> (bit: u64)
    ensures
        bit == stage_bit(stages, flag, driver_bit),
{
    if stages.bits & flag == flag {
        driver_bit
    } else {
        0
    }
}

/// The driver's stage mask of a set of work groups without unnamed bits.
#[verifier::when_used_as_spec(spec_pipeline_stage_to_vulkan)]
pub fn pipeline_stage_to_vulkan(stages: PipelineStage) -> (mask: u64)
    requires
        stages.is_known(),
    ensures
        mask == spec_pipeline_stage_to_vulkan(stages),
{
    stage_term(stages, 1, 0x800) | stage_term(stages, 2, 0x1000) | stage_term(stages, 4, 0x8000)
}

/// Different texel formats have different driver codes.
pub proof fn law_format_codes_are_distinct(a: ImageFormat, b: ImageFormat)
    ensures
        spec_image_format_to_vulkan(a) == spec_image_format_to_vulkan(b) <==> a == b,
{
}

/// Different blend factors have different driver codes.
pub proof fn law_blend_factor_codes_are_distinct(a: BlendFactor, b: BlendFactor)
    ensures
        spec_blend_factor_to_vulkan(a) == spec_blend_factor_to_vulkan(b) <==> a == b,
{
}

/// The driver's usage mask holds the driver's bit of a flag exactly when the
/// set holds the flag, and holds no other bit.
pub proof fn law_usage_mask_is_flagwise(usages: ImageUsage)
    ensures
        spec_image_usage_to_vulkan(usages) & 0x10 == 0x10 <==> usages.bits & 1 == 1,
        spec_image_usage_to_vulkan(usages) & 0x20 == 0x20 <==> usages.bits & 2 == 2,
        spec_image_usage_to_vulkan(usages) & 0x1 == 0x1 <==> usages.bits & 4 == 4,
        spec_image_usage_to_vulkan(usages) & 0x2 == 0x2 <==> usages.bits & 8 == 8,
        spec_image_usage_to_vulkan(usages) & 0x8 == 0x8 <==> usages.bits & 16 == 16,
        spec_image_usage_to_vulkan(usages) & 0x4 == 0x4 <==> usages.bits & 32 == 32,
        spec_image_usage_to_vulkan(usages) & !0x3fu32 == 0,
{
    let a = usage_bit(usages, 1, 0x10);
    let b = usage_bit(usages, 2, 0x20);
    let c = usage_bit(usages, 4, 0x1);
    let d = usage_bit(usages, 8, 0x2);
    let e = usage_bit(usages, 16, 0x8);
    let f = usage_bit(usages, 32, 0x4);
    let m = a | b | c | d | e | f;
    assert((a == 0 || a == 0x10) && (b == 0 || b == 0x20) && (c == 0 || c == 0x1) && (d == 0 || d
        == 0x2) && (e == 0 || e == 0x8) && (f == 0 || f == 0x4));
    assert(m == a | b | c | d | e | f && (a == 0 || a == 0x10) && (b == 0 || b == 0x20) && (c == 0
        || c == 0x1) && (d == 0 || d == 0x2) && (e == 0 || e == 0x8) && (f == 0 || f == 0x4) ==> (m
        & 0x10 == 0x10 <==> a == 0x10) && (m & 0x20 == 0x20 <==> b == 0x20) && (m & 0x1 == 0x1 <==> c
        == 0x1) && (m & 0x2 == 0x2 <==> d == 0x2) && (m & 0x8 == 0x8 <==> e == 0x8) && (m & 0x4
        == 0x4 <==> f == 0x4) && m & !0x3fu32 == 0) by (bit_vector);
}

/// The driver's stage mask holds the driver's bit of a work group exactly
/// when the set holds the group, and holds no other bit.
pub proof fn law_stage_mask_is_flagwise(stages: PipelineStage)
    ensures
        spec_pipeline_stage_to_vulkan(stages) & 0x800 == 0x800 <==> stages.bits & 1 == 1,
        spec_pipeline_stage_to_vulkan(stages) & 0x1000 == 0x1000 <==> stages.bits & 2 == 2,
        spec_pipeline_stage_to_vulkan(stages) & 0x8000 == 0x8000 <==> stages.bits & 4 == 4,
        spec_pipeline_stage_to_vulkan(stages) & !0x9800u64 == 0,
{
    let a = stage_bit(stages, 1, 0x800);
    let b = stage_bit(stages, 2, 0x1000);
    let c = stage_bit(stages, 4, 0x8000);
    let m = a | b | c;
    assert(m == a | b | c && (a == 0 || a == 0x800) && (b == 0 || b == 0x1000) && (c == 0 || c
        == 0x8000) ==> (m & 0x800 == 0x800 <==> a == 0x800) && (m & 0x1000 == 0x1000 <==> b
        == 0x1000) && (m & 0x8000 == 0x8000 <==> c == 0x8000) && m & !0x9800u64 == 0)
        by (bit_vector);
}

} // verus!
