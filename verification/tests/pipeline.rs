use cobra::pipeline::{
    entries_of_reflection, entry_module, inspect, is_model_known, plan_pipeline, shader_count,
    shader_words, sort_models, BindRequest, BlendPlan, GraphicsPipelineKey, PipelineCache,
    PipelineError, Refusal, ShaderEntry, StageError, StagePlan, EXECUTION_MODEL_FRAGMENT,
    EXECUTION_MODEL_VERTEX, MAX_ENTRY_POINTS, OP_ENTRY_POINT, SPIRV_MAGIC, SPIRV_MAGIC_SWAPPED,
};
use cobra::types::{BlendFactor, BlendOp, ImageFormat, ShaderStage};

fn module(execution_model: u32, with_origin: bool) -> &'static [u8] {
    let mut words: Vec<u32> = vec![
        0x0723_0203,
        0x0001_0000,
        0,
        6,
        0,
        (2 << 16) | 17,
        1,
        (3 << 16) | 14,
        0,
        1,
        (5 << 16) | 15,
        execution_model,
        4,
        0x6e69_616d,
        0,
    ];
    if with_origin {
        words.extend_from_slice(&[(3 << 16) | 16, 4, 7]);
    }
    words.extend_from_slice(&[
        (2 << 16) | 19,
        2,
        (3 << 16) | 33,
        3,
        2,
        (5 << 16) | 54,
        2,
        4,
        0,
        3,
        (2 << 16) | 248,
        5,
        (1 << 16) | 253,
        (1 << 16) | 56,
    ]);
    let mut bytes: Vec<u8> = Vec::new();
    for word in words {
        bytes.extend_from_slice(&word.to_le_bytes());
    }
    Box::leak(bytes.into_boxed_slice())
}

fn vertex_module() -> &'static [u8] {
    module(0, false)
}

fn fragment_module() -> &'static [u8] {
    module(4, true)
}

fn compute_module() -> &'static [u8] {
    let mut words: Vec<u32> = vec![
        0x0723_0203,
        0x0001_0000,
        0,
        6,
        0,
        (2 << 16) | 17,
        1,
        (3 << 16) | 14,
        0,
        1,
        (5 << 16) | 15,
        5,
        4,
        0x6e69_616d,
        0,
        (6 << 16) | 16,
        4,
        17,
        1,
        1,
        1,
    ];
    words.extend_from_slice(&[
        (2 << 16) | 19,
        2,
        (3 << 16) | 33,
        3,
        2,
        (5 << 16) | 54,
        2,
        4,
        0,
        3,
        (2 << 16) | 248,
        5,
        (1 << 16) | 253,
        (1 << 16) | 56,
    ]);
    let mut bytes: Vec<u8> = Vec::new();
    for word in words {
        bytes.extend_from_slice(&word.to_le_bytes());
    }
    Box::leak(bytes.into_boxed_slice())
}

#[test]
fn fresh_key_has_no_state() {
    let key = GraphicsPipelineKey::new();
    assert_eq!(key.color_attachment, ImageFormat::Unknown);
    assert_eq!(key.depth_attachment, ImageFormat::Unknown);
    assert_eq!(key.shaders, [None, None]);
    assert!(!key.blend_enable);
    assert_eq!(key.src_blend, BlendFactor::Zero);
    assert_eq!(key.dst_blend, BlendFactor::Zero);
    assert_eq!(key.blend_op, BlendOp::Add);
    assert_eq!(key.blend_alpha, BlendOp::Add);
    assert_eq!(key.src_blend_alpha, BlendFactor::Zero);
    assert_eq!(key.dst_blend_alpha, BlendFactor::Zero);
    assert_eq!(shader_count(&key), 0);
}

#[test]
fn keys_compare_by_the_bytes_of_their_shaders() {
    let first: &'static [u8] = Box::leak(vec![1u8, 2, 3, 4].into_boxed_slice());
    let second: &'static [u8] = Box::leak(vec![1u8, 2, 3, 4].into_boxed_slice());
    let other: &'static [u8] = Box::leak(vec![1u8, 2, 3, 5].into_boxed_slice());
    let shorter: &'static [u8] = Box::leak(vec![1u8, 2, 3].into_boxed_slice());
    let mut a = GraphicsPipelineKey::new();
    let mut b = GraphicsPipelineKey::new();
    a.shaders = [Some(first), None];
    b.shaders = [Some(second), None];
    assert!(a == b);
    b.shaders = [Some(other), None];
    assert!(a != b);
    b.shaders = [Some(shorter), None];
    assert!(a != b);
    b.shaders = [None, Some(first)];
    assert!(a != b);
    b.shaders = [Some(second), None];
    b.blend_enable = true;
    assert!(a != b);
    b.blend_enable = false;
    b.depth_attachment = ImageFormat::D32SFloat;
    assert!(a != b);
    b.depth_attachment = ImageFormat::Unknown;
    b.dst_blend_alpha = BlendFactor::One;
    assert!(a != b);
    b.dst_blend_alpha = BlendFactor::Zero;
    assert!(a == b);
}

#[test]
fn shader_words_are_little_endian_groups_of_four_bytes() {
    assert_eq!(shader_words(&[]), Vec::<u32>::new());
    assert_eq!(shader_words(&[1, 2, 3]), Vec::<u32>::new());
    assert_eq!(shader_words(&[0x03, 0x02, 0x23, 0x07]), vec![0x0723_0203]);
    assert_eq!(
        shader_words(&[0x03, 0x02, 0x23, 0x07, 0xff, 0xff, 0xff, 0xff, 9]),
        vec![0x0723_0203, 0xffff_ffff]
    );
    assert_eq!(shader_words(&[1, 0, 0, 0, 0, 1, 0, 0, 0, 0, 1, 0, 0, 0, 0, 1]), vec![
        1,
        256,
        65536,
        16777216
    ]);
}

#[test]
fn cache_keeps_the_last_pipeline_inserted_for_a_key() {
    let mut cache = PipelineCache::new();
    let mut key = GraphicsPipelineKey::new();
    assert_eq!(cache.len(), 0);
    assert_eq!(cache.lookup(&key), None);
    cache.insert(key, 11);
    assert_eq!(cache.lookup(&key), Some(11));
    assert_eq!(cache.len(), 1);
    key.color_attachment = ImageFormat::R8G8B8A8Unorm;
    assert_eq!(cache.lookup(&key), None);
    cache.insert(key, 12);
    assert_eq!(cache.len(), 2);
    cache.insert(key, 13);
    assert_eq!(cache.len(), 2);
    assert_eq!(cache.lookup(&key), Some(13));
    assert_eq!(cache.lookup(&GraphicsPipelineKey::new()), Some(11));
    let mut all = cache.pipelines();
    all.sort();
    assert_eq!(all, vec![11, 13]);
}

#[test]
fn second_bind_of_an_equal_key_does_not_compile_again() {
    let mut cache = PipelineCache::new();
    let mut key = GraphicsPipelineKey::new();
    key.color_attachment = ImageFormat::B8G8R8A8Srgb;
    key.shaders = [Some(vertex_module()), Some(fragment_module())];
    let plan = match cache.bind_or_create(&key) {
        Ok(BindRequest::Compile(plan)) => plan,
        other => panic!("expected a compilation, got {:?}", other),
    };
    assert_eq!(plan.stages.len(), 2);
    assert_eq!(cache.record(key, Ok(4242)).unwrap(), 4242);
    let mut equal = GraphicsPipelineKey::new();
    equal.color_attachment = ImageFormat::B8G8R8A8Srgb;
    equal.shaders = [Some(vertex_module()), Some(fragment_module())];
    assert!(key == equal);
    match cache.bind_or_create(&equal) {
        Ok(BindRequest::Bind(pipeline)) => assert_eq!(pipeline, 4242),
        other => panic!("expected a hit, got {:?}", other),
    }
    assert_eq!(cache.len(), 1);
}

#[test]
fn key_without_shaders_compiles_a_plan_without_stages() {
    let cache = PipelineCache::new();
    let mut key = GraphicsPipelineKey::new();
    key.color_attachment = ImageFormat::R8G8B8A8Unorm;
    key.depth_attachment = ImageFormat::D32SFloat;
    key.blend_enable = true;
    key.src_blend = BlendFactor::SrcAlpha;
    key.dst_blend = BlendFactor::OneMinusSrcAlpha;
    key.src_blend_alpha = BlendFactor::One;
    key.dst_blend_alpha = BlendFactor::DstAlpha;
    match cache.bind_or_create(&key) {
        Ok(BindRequest::Compile(plan)) => {
            assert!(plan.stages.is_empty());
            assert_eq!(plan.color_format, 37);
            assert_eq!(plan.depth_format, 126);
            assert_eq!(
                plan.blend,
                BlendPlan {
                    enable: true,
                    src_color: 6,
                    dst_color: 7,
                    color_op: 0,
                    src_alpha: 1,
                    dst_alpha: 8,
                    alpha_op: 0,
                }
            );
        }
        other => panic!("expected a compilation, got {:?}", other),
    }
}

#[test]
fn shaders_after_the_first_empty_position_take_no_part() {
    let cache = PipelineCache::new();
    let mut key = GraphicsPipelineKey::new();
    key.shaders = [None, Some(vertex_module())];
    assert_eq!(shader_count(&key), 0);
    match cache.bind_or_create(&key) {
        Ok(BindRequest::Compile(plan)) => assert!(plan.stages.is_empty()),
        other => panic!("expected a compilation, got {:?}", other),
    }
}

#[test]
fn reflection_assigns_vertex_and_fragment_stages() {
    let cache = PipelineCache::new();
    let mut key = GraphicsPipelineKey::new();
    key.shaders = [Some(vertex_module()), Some(fragment_module())];
    assert_eq!(shader_count(&key), 2);
    match cache.bind_or_create(&key) {
        Ok(BindRequest::Compile(plan)) => {
            assert_eq!(plan.stages, vec![
                StagePlan { shader: 0, stage: ShaderStage::vertex() },
                StagePlan { shader: 1, stage: ShaderStage::pixel() },
            ]);
        }
        other => panic!("expected a compilation, got {:?}", other),
    }
    key.shaders = [Some(fragment_module()), None];
    match cache.bind_or_create(&key) {
        Ok(BindRequest::Compile(plan)) => {
            assert_eq!(plan.stages, vec![StagePlan { shader: 0, stage: ShaderStage::pixel() }]);
        }
        other => panic!("expected a compilation, got {:?}", other),
    }
}

#[test]
fn two_entry_points_for_one_stage_are_refused() {
    let cache = PipelineCache::new();
    let mut key = GraphicsPipelineKey::new();
    key.shaders = [Some(vertex_module()), Some(vertex_module())];
    match cache.bind_or_create(&key) {
        Err(PipelineError::Stage(error)) => {
            assert_eq!(error, StageError::Duplicate { shader: 1, stage: ShaderStage::vertex() });
        }
        other => panic!("expected a stage error, got {:?}", other),
    }
}

#[test]
fn entry_point_of_another_stage_is_refused() {
    let cache = PipelineCache::new();
    let mut key = GraphicsPipelineKey::new();
    key.shaders = [Some(compute_module()), None];
    match cache.bind_or_create(&key) {
        Err(PipelineError::Stage(error)) => {
            assert_eq!(error, StageError::Unsupported { shader: 0, model: 5 });
        }
        other => panic!("expected a stage error, got {:?}", other),
    }
}

#[test]
fn binary_that_is_no_shader_fails_reflection_and_is_not_cached() {
    let mut cache = PipelineCache::new();
    let garbage: &'static [u8] = Box::leak(vec![1u8, 2, 3, 4, 5, 6, 7, 8].into_boxed_slice());
    let mut key = GraphicsPipelineKey::new();
    key.shaders = [Some(vertex_module()), Some(garbage)];
    match cache.bind_or_create(&key) {
        Err(PipelineError::Reflection { shader, .. }) => assert_eq!(shader, 1),
        other => panic!("expected a reflection error, got {:?}", other),
    }
    assert_eq!(cache.lookup(&key), None);
    assert_eq!(cache.len(), 0);
    match cache.record(key, Err(-3)) {
        Err(PipelineError::Driver(code)) => assert_eq!(code, -3),
        other => panic!("expected a driver error, got {:?}", other),
    }
    assert_eq!(cache.lookup(&key), None);
}

#[test]
fn plan_pipeline_assigns_stages_in_entry_order() {
    let key = GraphicsPipelineKey::new();
    let entries = vec![
        ShaderEntry { shader: 0, model: EXECUTION_MODEL_FRAGMENT },
        ShaderEntry { shader: 1, model: EXECUTION_MODEL_VERTEX },
    ];
    let plan = plan_pipeline(&key, &entries).unwrap();
    assert_eq!(plan.stages, vec![
        StagePlan { shader: 0, stage: ShaderStage::pixel() },
        StagePlan { shader: 1, stage: ShaderStage::vertex() },
    ]);
    assert_eq!(plan.color_format, 0);
    assert_eq!(plan.depth_format, 0);
    assert!(!plan.blend.enable);
    assert!(plan_pipeline(&key, &Vec::new()).unwrap().stages.is_empty());
}

#[test]
fn plan_pipeline_reports_the_first_offending_entry() {
    let key = GraphicsPipelineKey::new();
    let entries = vec![
        ShaderEntry { shader: 0, model: 0 },
        ShaderEntry { shader: 0, model: 0 },
        ShaderEntry { shader: 1, model: 7 },
    ];
    assert_eq!(
        plan_pipeline(&key, &entries).unwrap_err(),
        StageError::Duplicate { shader: 0, stage: ShaderStage::vertex() }
    );
    let entries = vec![
        ShaderEntry { shader: 0, model: 4 },
        ShaderEntry { shader: 1, model: 7 },
        ShaderEntry { shader: 1, model: 4 },
    ];
    assert_eq!(
        plan_pipeline(&key, &entries).unwrap_err(),
        StageError::Unsupported { shader: 1, model: 7 }
    );
}

fn words_with_entries(entries: &[(u32, u32)]) -> Vec<u32> {
    let mut words: Vec<u32> = vec![SPIRV_MAGIC, 0x0001_0000, 0, 14, 0, (2 << 16) | 17, 1, (3 << 16) | 14, 0, 1];
    for (model, function) in entries {
        words.extend_from_slice(&[(5 << 16) | OP_ENTRY_POINT, *model, *function, 0x6e69_616d, 0]);
    }
    words.extend_from_slice(&[(2 << 16) | 19, 1, (3 << 16) | 33, 2, 1]);
    for function in [10u32, 12] {
        words.extend_from_slice(&[
            (5 << 16) | 54,
            1,
            function,
            0,
            2,
            (2 << 16) | 248,
            function + 1,
            (1 << 16) | 253,
            (1 << 16) | 56,
        ]);
    }
    words
}

fn bytes_of(words: &[u32]) -> &'static [u8] {
    let mut bytes: Vec<u8> = Vec::new();
    for word in words {
        bytes.extend_from_slice(&word.to_le_bytes());
    }
    Box::leak(bytes.into_boxed_slice())
}

#[test]
fn named_execution_models_are_known() {
    for model in [0u32, 4, 5, 6, 5267, 5268, 5313, 5318, 5364, 5365] {
        assert!(is_model_known(model));
    }
    for model in [7u32, 8, 5266, 5269, 5312, 5319, 5363, 5366, u32::MAX] {
        assert!(!is_model_known(model));
    }
}

#[test]
fn inspection_reads_the_entry_point_declarations() {
    assert_eq!(inspect(&words_with_entries(&[(0, 10), (4, 12)])), Ok(vec![0, 4]));
    assert_eq!(inspect(&words_with_entries(&[(4, 10), (0, 12), (5, 10)])), Ok(vec![4, 0, 5]));
    assert_eq!(inspect(&words_with_entries(&[])), Ok(vec![]));
    assert_eq!(inspect(&words_with_entries(&[(0, 10), (7, 12)])), Err(Refusal::Unknown(7)));
    assert_eq!(inspect(&words_with_entries(&[(9000, 10), (7, 12)])), Err(Refusal::Unknown(9000)));
    assert_eq!(inspect(&[]), Ok(vec![]));
    assert_eq!(inspect(&[1, 2, 3]), Ok(vec![]));
    assert_eq!(inspect(&[1, 2, 3, 4, 5, (5 << 16) | 15, 7, 1, 0, 0]), Ok(vec![]));
    assert_eq!(inspect(&[SPIRV_MAGIC, 0x10000, 0, 4, 0, (2 << 16) | 15, 0]), Err(Refusal::Malformed));
    assert_eq!(inspect(&[SPIRV_MAGIC, 0x10000, 0, 4, 0, (1 << 16) | 15]), Err(Refusal::Malformed));
    assert_eq!(inspect(&[SPIRV_MAGIC, 0x10000, 0, 4, 0, (3 << 16) | 15, 7, 1]), Err(Refusal::Unknown(7)));
    assert_eq!(inspect(&[SPIRV_MAGIC, 0x10000, 0, 4, 0, (3 << 16) | 15, 6, 1]), Ok(vec![6]));
    assert_eq!(inspect(&[SPIRV_MAGIC_SWAPPED]), Err(Refusal::Malformed));
}

#[test]
fn inspection_ends_where_the_walk_breaks() {
    let broken = [SPIRV_MAGIC, 0x10000, 0, 4, 0, (3 << 16) | 15, 4, 1, 15, (3 << 16) | 15, 7, 1];
    assert_eq!(inspect(&broken), Ok(vec![4]));
    let overrun = [SPIRV_MAGIC, 0x10000, 0, 4, 0, (9 << 16) | 15, 7, 1];
    assert_eq!(inspect(&overrun), Ok(vec![]));
    let other = [SPIRV_MAGIC, 0x10000, 0, 4, 0, (3 << 16) | 16, 7, 1, (3 << 16) | 15, 8, 1];
    assert_eq!(inspect(&other), Err(Refusal::Unknown(8)));
}

#[test]
fn modules_with_too_many_entry_points_are_refused() {
    let at_limit: Vec<(u32, u32)> = (0..MAX_ENTRY_POINTS).map(|_| (0u32, 10u32)).collect();
    assert_eq!(inspect(&words_with_entries(&at_limit)).map(|models| models.len()), Ok(64));
    let beyond: Vec<(u32, u32)> = (0..MAX_ENTRY_POINTS + 1).map(|_| (0u32, 10u32)).collect();
    assert_eq!(inspect(&words_with_entries(&beyond)), Err(Refusal::Malformed));
}

#[test]
fn entry_module_declares_the_models_and_nothing_else() {
    assert_eq!(entry_module(&vec![]), vec![
        SPIRV_MAGIC,
        0x10000,
        0,
        3,
        0,
        0x0002_0011,
        1,
        0x0003_000e,
        0,
        1,
        0x0002_0013,
        1,
        0x0003_0021,
        2,
        1,
    ]);
    assert_eq!(entry_module(&vec![4, 0]), vec![
        SPIRV_MAGIC,
        0x10000,
        0,
        7,
        0,
        0x0002_0011,
        1,
        0x0003_000e,
        0,
        1,
        0x0005_000f,
        4,
        3,
        0x6e69_616d,
        0,
        0x0005_000f,
        0,
        5,
        0x6e69_616d,
        0,
        0x0002_0013,
        1,
        0x0003_0021,
        2,
        1,
        0x0005_0036,
        1,
        3,
        0,
        2,
        0x0002_00f8,
        4,
        0x0001_00fd,
        0x0001_0038,
        0x0005_0036,
        1,
        5,
        0,
        2,
        0x0002_00f8,
        6,
        0x0001_00fd,
        0x0001_0038,
    ]);
    assert_eq!(inspect(&entry_module(&vec![4, 0, 5])), Ok(vec![4, 0, 5]));
}

#[test]
fn models_are_sorted_ascending() {
    assert_eq!(sort_models(&vec![4, 0, 5, 0]), vec![0, 0, 4, 5]);
    assert_eq!(sort_models(&vec![]), Vec::<u32>::new());
    assert_eq!(sort_models(&vec![3]), vec![3]);
    assert_eq!(sort_models(&vec![1, 2, 3]), vec![1, 2, 3]);
    assert_eq!(sort_models(&vec![3, 2, 1]), vec![1, 2, 3]);
}

#[test]
fn reflection_answers_become_entries_or_errors() {
    assert_eq!(entries_of_reflection(1, Ok(vec![4, 0])).unwrap(), vec![
        ShaderEntry { shader: 1, model: 0 },
        ShaderEntry { shader: 1, model: 4 },
    ]);
    assert!(entries_of_reflection(0, Ok(Vec::new())).unwrap().is_empty());
    assert!(matches!(
        entries_of_reflection(1, Err(spirv_cross2::SpirvCrossError::InvalidEnum)),
        Err(PipelineError::Reflection { shader: 1, .. })
    ));
    assert!(matches!(
        entries_of_reflection(0, Err(spirv_cross2::SpirvCrossError::OutOfMemory(String::new()))),
        Err(PipelineError::Reflection { shader: 0, .. })
    ));
}

#[test]
fn unknown_execution_model_is_refused_before_reflection() {
    let cache = PipelineCache::new();
    let mut key = GraphicsPipelineKey::new();
    key.shaders = [Some(vertex_module()), Some(bytes_of(&words_with_entries(&[(7, 10)])))];
    match cache.bind_or_create(&key) {
        Err(PipelineError::Stage(error)) => {
            assert_eq!(error, StageError::Unsupported { shader: 1, model: 7 });
        }
        other => panic!("expected a stage error, got {:?}", other),
    }
}

#[test]
fn module_in_foreign_byte_order_is_malformed() {
    let cache = PipelineCache::new();
    let swapped: Vec<u32> = words_with_entries(&[(0, 10)]).iter().map(|word| word.swap_bytes()).collect();
    assert_eq!(swapped[0], SPIRV_MAGIC_SWAPPED);
    let mut key = GraphicsPipelineKey::new();
    key.shaders = [Some(bytes_of(&swapped)), None];
    assert!(matches!(cache.bind_or_create(&key), Err(PipelineError::Malformed { shader: 0 })));
    let short = [SPIRV_MAGIC, 0x10000, 0, 4, 0, (2 << 16) | 15, 0];
    key.shaders = [Some(vertex_module()), Some(bytes_of(&short))];
    assert!(matches!(cache.bind_or_create(&key), Err(PipelineError::Malformed { shader: 1 })));
}

#[test]
fn shader_that_declares_no_entry_point_fails_reflection() {
    let cache = PipelineCache::new();
    let mut key = GraphicsPipelineKey::new();
    key.shaders = [Some(bytes_of(&words_with_entries(&[]))), None];
    assert!(matches!(cache.bind_or_create(&key), Err(PipelineError::Reflection { shader: 0, .. })));
}

#[test]
fn instructions_other_than_declarations_do_not_reach_reflection() {
    let cache = PipelineCache::new();
    let mut words = words_with_entries(&[(0, 10)]);
    words.extend_from_slice(&[0x0001_0011, (3 << 16) | 1, 0, 500, (3 << 16) | 16, 99, 7]);
    let mut key = GraphicsPipelineKey::new();
    key.shaders = [Some(bytes_of(&words)), None];
    match cache.bind_or_create(&key) {
        Ok(BindRequest::Compile(plan)) => {
            assert_eq!(plan.stages, vec![StagePlan { shader: 0, stage: ShaderStage::vertex() }]);
        }
        other => panic!("expected a compilation, got {:?}", other),
    }
}

#[test]
fn entry_points_of_one_module_come_by_ascending_model() {
    let cache = PipelineCache::new();
    let mut key = GraphicsPipelineKey::new();
    key.shaders = [Some(bytes_of(&words_with_entries(&[(4, 10), (0, 12)]))), None];
    match cache.bind_or_create(&key) {
        Ok(BindRequest::Compile(plan)) => {
            assert_eq!(plan.stages, vec![
                StagePlan { shader: 0, stage: ShaderStage::vertex() },
                StagePlan { shader: 0, stage: ShaderStage::pixel() },
            ]);
        }
        other => panic!("expected a compilation, got {:?}", other),
    }
    key.shaders = [Some(bytes_of(&words_with_entries(&[(0, 10), (4, 12)]))), None];
    match cache.bind_or_create(&key) {
        Ok(BindRequest::Compile(plan)) => {
            assert_eq!(plan.stages, vec![
                StagePlan { shader: 0, stage: ShaderStage::vertex() },
                StagePlan { shader: 0, stage: ShaderStage::pixel() },
            ]);
        }
        other => panic!("expected a compilation, got {:?}", other),
    }
    key.shaders = [Some(bytes_of(&words_with_entries(&[(0, 10), (0, 12)]))), None];
    match cache.bind_or_create(&key) {
        Err(PipelineError::Stage(error)) => {
            assert_eq!(error, StageError::Duplicate { shader: 0, stage: ShaderStage::vertex() });
        }
        other => panic!("expected a stage error, got {:?}", other),
    }
}

#[test]
fn module_with_the_most_entry_points_is_reflected() {
    let cache = PipelineCache::new();
    let mut key = GraphicsPipelineKey::new();
    let many: Vec<(u32, u32)> = (0..MAX_ENTRY_POINTS).map(|_| (4u32, 10u32)).collect();
    key.shaders = [Some(bytes_of(&words_with_entries(&many))), None];
    match cache.bind_or_create(&key) {
        Err(PipelineError::Stage(error)) => {
            assert_eq!(error, StageError::Duplicate { shader: 0, stage: ShaderStage::pixel() });
        }
        other => panic!("expected a stage error, got {:?}", other),
    }
    let beyond: Vec<(u32, u32)> = (0..MAX_ENTRY_POINTS + 1).map(|_| (4u32, 10u32)).collect();
    key.shaders = [Some(bytes_of(&words_with_entries(&beyond))), None];
    assert!(matches!(cache.bind_or_create(&key), Err(PipelineError::Malformed { shader: 0 })));
}
