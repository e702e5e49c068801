use ash::vk;
use cobra::convert::{
    blend_factor_to_vulkan, blend_op_to_vulkan, compare_op_to_vulkan, image_format_to_vulkan,
    image_usage_to_vulkan, index_type_to_vulkan, pipeline_stage_to_vulkan,
};
use cobra::types::{
    BlendFactor, BlendOp, CompareOperation, ImageFormat, ImageUsage, IndexType, PipelineStage,
};

#[test]
fn image_formats_have_the_drivers_codes() {
    assert_eq!(image_format_to_vulkan(ImageFormat::Unknown), vk::Format::UNDEFINED.as_raw());
    assert_eq!(image_format_to_vulkan(ImageFormat::R32Sint), vk::Format::R32_SINT.as_raw());
    assert_eq!(
        image_format_to_vulkan(ImageFormat::R16G16B16A16Sfloat),
        vk::Format::R16G16B16A16_SFLOAT.as_raw()
    );
    assert_eq!(
        image_format_to_vulkan(ImageFormat::R16G16B16A16Unorm),
        vk::Format::R16G16B16A16_UNORM.as_raw()
    );
    assert_eq!(
        image_format_to_vulkan(ImageFormat::R8G8B8A8Unorm),
        vk::Format::R8G8B8A8_UNORM.as_raw()
    );
    assert_eq!(
        image_format_to_vulkan(ImageFormat::B8G8R8A8Srgb),
        vk::Format::B8G8R8A8_SRGB.as_raw()
    );
    assert_eq!(image_format_to_vulkan(ImageFormat::D32SFloat), vk::Format::D32_SFLOAT.as_raw());
}

#[test]
fn image_format_codes_are_exact() {
    assert_eq!(image_format_to_vulkan(ImageFormat::Unknown), 0);
    assert_eq!(image_format_to_vulkan(ImageFormat::R32Sint), 99);
    assert_eq!(image_format_to_vulkan(ImageFormat::R16G16B16A16Sfloat), 97);
    assert_eq!(image_format_to_vulkan(ImageFormat::R16G16B16A16Unorm), 91);
    assert_eq!(image_format_to_vulkan(ImageFormat::R8G8B8A8Unorm), 37);
    assert_eq!(image_format_to_vulkan(ImageFormat::B8G8R8A8Srgb), 50);
    assert_eq!(image_format_to_vulkan(ImageFormat::D32SFloat), 126);
}

#[test]
fn each_usage_flag_maps_to_the_drivers_flag() {
    assert_eq!(image_usage_to_vulkan(ImageUsage::empty()), vk::ImageUsageFlags::empty().as_raw());
    assert_eq!(
        image_usage_to_vulkan(ImageUsage::color_attachment()),
        vk::ImageUsageFlags::COLOR_ATTACHMENT.as_raw()
    );
    assert_eq!(
        image_usage_to_vulkan(ImageUsage::depth_stencil_attachment()),
        vk::ImageUsageFlags::DEPTH_STENCIL_ATTACHMENT.as_raw()
    );
    assert_eq!(
        image_usage_to_vulkan(ImageUsage::transfer_src()),
        vk::ImageUsageFlags::TRANSFER_SRC.as_raw()
    );
    assert_eq!(
        image_usage_to_vulkan(ImageUsage::transfer_dst()),
        vk::ImageUsageFlags::TRANSFER_DST.as_raw()
    );
    assert_eq!(image_usage_to_vulkan(ImageUsage::storage()), vk::ImageUsageFlags::STORAGE.as_raw());
    assert_eq!(image_usage_to_vulkan(ImageUsage::sampled()), vk::ImageUsageFlags::SAMPLED.as_raw());
}

#[test]
fn usage_sets_map_to_the_union_of_their_flags() {
    let usage = ImageUsage::storage().union(ImageUsage::sampled()).union(ImageUsage::transfer_dst());
    let expected = vk::ImageUsageFlags::STORAGE
        | vk::ImageUsageFlags::SAMPLED
        | vk::ImageUsageFlags::TRANSFER_DST;
    assert_eq!(image_usage_to_vulkan(usage), expected.as_raw());
    assert_eq!(image_usage_to_vulkan(usage), 0xe);
    assert_eq!(image_usage_to_vulkan(ImageUsage::all()), 0x3f);
}

#[test]
fn blend_factors_have_the_drivers_codes() {
    assert_eq!(blend_factor_to_vulkan(BlendFactor::Zero), vk::BlendFactor::ZERO.as_raw());
    assert_eq!(blend_factor_to_vulkan(BlendFactor::One), vk::BlendFactor::ONE.as_raw());
    assert_eq!(blend_factor_to_vulkan(BlendFactor::SrcAlpha), vk::BlendFactor::SRC_ALPHA.as_raw());
    assert_eq!(blend_factor_to_vulkan(BlendFactor::DstAlpha), vk::BlendFactor::DST_ALPHA.as_raw());
    assert_eq!(
        blend_factor_to_vulkan(BlendFactor::OneMinusSrcAlpha),
        vk::BlendFactor::ONE_MINUS_SRC_ALPHA.as_raw()
    );
    assert_eq!(blend_factor_to_vulkan(BlendFactor::SrcAlpha), 6);
    assert_eq!(blend_factor_to_vulkan(BlendFactor::DstAlpha), 8);
    assert_eq!(blend_factor_to_vulkan(BlendFactor::OneMinusSrcAlpha), 7);
}

#[test]
fn blend_op_has_the_drivers_code() {
    assert_eq!(blend_op_to_vulkan(BlendOp::Add), vk::BlendOp::ADD.as_raw());
    assert_eq!(blend_op_to_vulkan(BlendOp::Add), 0);
}

#[test]
fn compare_operations_have_the_drivers_codes() {
    assert_eq!(compare_op_to_vulkan(CompareOperation::Never), vk::CompareOp::NEVER.as_raw());
    assert_eq!(compare_op_to_vulkan(CompareOperation::Greater), vk::CompareOp::GREATER.as_raw());
    assert_eq!(
        compare_op_to_vulkan(CompareOperation::GreaterEqual),
        vk::CompareOp::GREATER_OR_EQUAL.as_raw()
    );
    assert_eq!(
        compare_op_to_vulkan(CompareOperation::LesserEqual),
        vk::CompareOp::LESS_OR_EQUAL.as_raw()
    );
    assert_eq!(compare_op_to_vulkan(CompareOperation::Greater), 4);
    assert_eq!(compare_op_to_vulkan(CompareOperation::LesserEqual), 3);
}

#[test]
fn index_types_have_the_drivers_codes() {
    assert_eq!(index_type_to_vulkan(IndexType::U16), vk::IndexType::UINT16.as_raw());
    assert_eq!(index_type_to_vulkan(IndexType::U32), vk::IndexType::UINT32.as_raw());
}

#[test]
fn pipeline_stages_map_to_the_drivers_stage_masks() {
    assert_eq!(pipeline_stage_to_vulkan(PipelineStage::empty()), 0);
    assert_eq!(
        pipeline_stage_to_vulkan(PipelineStage::compute()),
        vk::PipelineStageFlags2::COMPUTE_SHADER.as_raw()
    );
    assert_eq!(
        pipeline_stage_to_vulkan(PipelineStage::transfer()),
        vk::PipelineStageFlags2::ALL_TRANSFER.as_raw()
    );
    assert_eq!(
        pipeline_stage_to_vulkan(PipelineStage::graphics()),
        vk::PipelineStageFlags2::ALL_GRAPHICS.as_raw()
    );
    let all = vk::PipelineStageFlags2::COMPUTE_SHADER
        | vk::PipelineStageFlags2::ALL_TRANSFER
        | vk::PipelineStageFlags2::ALL_GRAPHICS;
    assert_eq!(pipeline_stage_to_vulkan(PipelineStage::all()), all.as_raw());
    assert_eq!(pipeline_stage_to_vulkan(PipelineStage::all()), 0x9800);
}
