//! Render-state keys and the cache of compiled pipelines.
//!
//! A pipeline is compiled once per distinct [`GraphicsPipelineKey`] and then
//! found again by that key. Keys are compared by content: two keys that hold
//! shader binaries with the same bytes are the same key, whatever memory the
//! bytes live in.

use vstd::prelude::*;
use vstd::multiset::Multiset;
use vstd::std_specs::cmp::PartialEqSpecImpl;
use crate::convert::{
    blend_factor_to_vulkan, blend_op_to_vulkan, image_format_to_vulkan,
    spec_blend_factor_to_vulkan, spec_blend_op_to_vulkan, spec_image_format_to_vulkan,
};
use crate::types::{BlendFactor, BlendOp, ImageFormat, ShaderStage};

verus! {

/// Number of shader binaries a key can hold.
pub const MAX_SHADERS: usize = 2;

/// Execution model number of a vertex entry point in a shader binary.
pub const EXECUTION_MODEL_VERTEX: u32 = 0;

/// Execution model number of a fragment entry point in a shader binary.
pub const EXECUTION_MODEL_FRAGMENT: u32 = 4;

/// The render state that determines a compiled pipeline.
#[derive(Clone, Copy, Debug, Hash)]
pub struct GraphicsPipelineKey {
    pub color_attachment: ImageFormat,
    pub depth_attachment: ImageFormat,
    pub shaders: [Option<&'static [u8]>; 2],
    pub blend_enable: bool,
    pub src_blend: BlendFactor,
    pub dst_blend: BlendFactor,
    pub blend_alpha: BlendOp,
    pub blend_op: BlendOp,
    pub src_blend_alpha: BlendFactor,
    pub dst_blend_alpha: BlendFactor,
}

/// What a key says, with each shader binary taken as its bytes.
pub ghost struct KeyView {
    pub color_attachment: ImageFormat,
    pub depth_attachment: ImageFormat,
    pub shaders: Seq<Option<Seq<u8>>>,
    pub blend_enable: bool,
    pub src_blend: BlendFactor,
    pub dst_blend: BlendFactor,
    pub blend_alpha: BlendOp,
    pub blend_op: BlendOp,
    pub src_blend_alpha: BlendFactor,
    pub dst_blend_alpha: BlendFactor,
}

/// The bytes of an optional shader binary.
pub open spec fn shader_bytes(shader: Option<&'static [u8]>) -> Option<Seq<u8>> {
    match shader {
        Some(binary) => Some(binary@),
        None => None,
    }
}

impl View for GraphicsPipelineKey {
    type V = KeyView;

    open spec fn view(&self) -> KeyView {
        KeyView {
            color_attachment: self.color_attachment,
            depth_attachment: self.depth_attachment,
            shaders: Seq::new(2, |i: int| shader_bytes(self.shaders@[i])),
            blend_enable: self.blend_enable,
            src_blend: self.src_blend,
            dst_blend: self.dst_blend,
            blend_alpha: self.blend_alpha,
            blend_op: self.blend_op,
            src_blend_alpha: self.src_blend_alpha,
            dst_blend_alpha: self.dst_blend_alpha,
        }
    }
}

/// Whether two byte strings hold the same bytes.
fn bytes_eq(a: &[u8], b: &[u8]) -> (same: bool)
    ensures
        same == (a@ == b@),
{
    if a.len() != b.len() {
        return false;
    }
    let mut i: usize = 0;
    while i < a.len()
        invariant
            a@.len() == b@.len(),
            i <= a@.len(),
            forall|k: int| 0 <= k < i ==> a@[k] == b@[k],
        decreases a@.len() - i,
    {
        if a[i] != b[i] {
            return false;
        }
        i += 1;
    }
    assert(a@ =~= b@);
    true
}

/// Whether two optional shader binaries hold the same bytes.
fn shader_eq(a: Option<&'static [u8]>, b: Option<&'static [u8]>) -> (same: bool)
    ensures
        same == (shader_bytes(a) == shader_bytes(b)),
{
    match (a, b) {
        (Some(x), Some(y)) => bytes_eq(x, y),
        (None, None) => true,
        _ => false,
    }
}

impl PartialEq for GraphicsPipelineKey {
    /// Keys are equal when all state fields are equal and the shader
    /// binaries hold the same bytes.
    fn eq(&self, other: &GraphicsPipelineKey) -> (same: bool) {
        let same = self.color_attachment == other.color_attachment && self.depth_attachment
            == other.depth_attachment && shader_eq(self.shaders[0], other.shaders[0]) && shader_eq(
            self.shaders[1],
            other.shaders[1],
        ) && self.blend_enable == other.blend_enable && self.src_blend == other.src_blend
            && self.dst_blend == other.dst_blend && self.blend_alpha == other.blend_alpha
            && self.blend_op == other.blend_op && self.src_blend_alpha == other.src_blend_alpha
            && self.dst_blend_alpha == other.dst_blend_alpha;
        proof {
            if same {
                assert(self@.shaders =~= other@.shaders);
            } else {
                assert(self@.shaders[0] == shader_bytes(self.shaders@[0]));
                assert(self@.shaders[1] == shader_bytes(self.shaders@[1]));
                assert(other@.shaders[0] == shader_bytes(other.shaders@[0]));
                assert(other@.shaders[1] == shader_bytes(other.shaders@[1]));
            }
        }
        same
    }
}

impl PartialEqSpecImpl for GraphicsPipelineKey {
    open spec fn obeys_eq_spec() -> bool {
        true
    }

    open spec fn eq_spec(&self, other: &GraphicsPipelineKey) -> bool {
        self@ == other@
    }
}

impl Eq for GraphicsPipelineKey {

}

impl GraphicsPipelineKey {
    /// The key of a command list on which nothing was recorded: unknown
    /// attachment formats, no shaders, blending off.
    pub fn new() -> (key: GraphicsPipelineKey)
        ensures
            key@ == Self::initial(),
    {
        let key = GraphicsPipelineKey {
            color_attachment: ImageFormat::Unknown,
            depth_attachment: ImageFormat::Unknown,
            shaders: [None, None],
            blend_enable: false,
            src_blend: BlendFactor::Zero,
            dst_blend: BlendFactor::Zero,
            blend_alpha: BlendOp::Add,
            blend_op: BlendOp::Add,
            src_blend_alpha: BlendFactor::Zero,
            dst_blend_alpha: BlendFactor::Zero,
        };
        assert(key@.shaders =~= seq![None, None]);
        key
    }

    /// What the key of a fresh command list says.
    pub open spec fn initial() -> KeyView {
        KeyView {
            color_attachment: ImageFormat::Unknown,
            depth_attachment: ImageFormat::Unknown,
            shaders: seq![None, None],
            blend_enable: false,
            src_blend: BlendFactor::Zero,
            dst_blend: BlendFactor::Zero,
            blend_alpha: BlendOp::Add,
            blend_op: BlendOp::Add,
            src_blend_alpha: BlendFactor::Zero,
            dst_blend_alpha: BlendFactor::Zero,
        }
    }
}

/// One entry point found in a shader binary.
#[derive(Clone, Copy, Debug, PartialEq, Eq, Structural)]
pub struct ShaderEntry {
    /// Position of the binary among the key's shaders.
    pub shader: usize,
    /// Execution model number of the entry point.
    pub model: u32,
}

/// One programmable stage of a pipeline to compile.
#[derive(Clone, Copy, Debug, PartialEq, Eq, Structural)]
pub struct StagePlan {
    /// Position of the binary among the key's shaders.
    pub shader: usize,
    /// The stage the binary's entry point runs in: a single flag.
    pub stage: ShaderStage,
}

/// Why the entry points of a key's shaders do not make a pipeline.
#[derive(Clone, Copy, Debug, PartialEq, Eq, Structural)]
pub enum StageError {
    /// An entry point runs in a stage that pipelines here do not have.
    Unsupported { shader: usize, model: u32 },
    /// A second entry point asks for a stage that is already taken.
    Duplicate { shader: usize, stage: ShaderStage },
}

/// Blend state of the one colour attachment, in the driver's codes.
#[derive(Clone, Copy, Debug, PartialEq, Eq, Structural)]
pub struct BlendPlan {
    pub enable: bool,
    pub src_color: i32,
    pub dst_color: i32,
    pub color_op: i32,
    pub src_alpha: i32,
    pub dst_alpha: i32,
    pub alpha_op: i32,
}

/// Everything of a pipeline that depends on its key, ready for the driver.
#[derive(Debug)]
pub struct PipelinePlan {
    pub stages: Vec<StagePlan>,
    pub color_format: i32,
    pub depth_format: i32,
    pub blend: BlendPlan,
}

/// What a plan says.
pub ghost struct PlanView {
    pub stages: Seq<StagePlan>,
    pub color_format: i32,
    pub depth_format: i32,
    pub blend: BlendPlan,
}

impl View for PipelinePlan {
    type V = PlanView;

    open spec fn view(&self) -> PlanView {
        PlanView {
            stages: self.stages@,
            color_format: self.color_format,
            depth_format: self.depth_format,
            blend: self.blend,
        }
    }
}

/// The stage an entry point with the given execution model runs in.
pub open spec fn stage_of_model(model: u32) -> Option<ShaderStage> {
    if model == EXECUTION_MODEL_VERTEX {
        Some(ShaderStage { bits: 1 })
    } else if model == EXECUTION_MODEL_FRAGMENT {
        Some(ShaderStage { bits: 2 })
    } else {
        None
    }
}

/// Whether some stage of `stages` is `stage`.
pub open spec fn stage_taken(stages: Seq<StagePlan>, stage: ShaderStage) -> bool {
    exists|k: int| 0 <= k < stages.len() && #[trigger] stages[k].stage == stage
}

/// The stages that a list of entry points makes, in the order of the list.
/// The first entry point that runs in an unsupported stage, or in a stage
/// that an earlier one took, ends the assignment with an error.
pub open spec fn assign_stages(entries: Seq<ShaderEntry>) -> Result<Seq<StagePlan>, StageError>
    decreases entries.len(),
{
    if entries.len() == 0 {
        Ok(Seq::empty())
    } else {
        let entry = entries.last();
        match assign_stages(entries.drop_last()) {
            Err(error) => Err(error),
            Ok(stages) => match stage_of_model(entry.model) {
                None => Err(StageError::Unsupported { shader: entry.shader, model: entry.model }),
                Some(stage) => if stage_taken(stages, stage) {
                    Err(StageError::Duplicate { shader: entry.shader, stage })
                } else {
                    Ok(stages.push(StagePlan { shader: entry.shader, stage }))
                },
            },
        }
    }
}

/// The blend state that a key asks for, in the driver's codes.
pub open spec fn spec_blend_plan(key: KeyView) -> BlendPlan {
    BlendPlan {
        enable: key.blend_enable,
        src_color: spec_blend_factor_to_vulkan(key.src_blend),
        dst_color: spec_blend_factor_to_vulkan(key.dst_blend),
        color_op: spec_blend_op_to_vulkan(key.blend_op),
        src_alpha: spec_blend_factor_to_vulkan(key.src_blend_alpha),
        dst_alpha: spec_blend_factor_to_vulkan(key.dst_blend_alpha),
        alpha_op: spec_blend_op_to_vulkan(key.blend_alpha),
    }
}

/// The plan of the pipeline with the given key and stages.
pub open spec fn spec_plan(key: KeyView, stages: Seq<StagePlan>) -> PlanView {
    PlanView {
        stages,
        color_format: spec_image_format_to_vulkan(key.color_attachment),
        depth_format: spec_image_format_to_vulkan(key.depth_attachment),
        blend: spec_blend_plan(key),
    }
}

/// Plans the pipeline of `key` from the entry points found in its shaders.
/// Succeeds exactly when the entry points make a valid stage assignment.
pub fn plan_pipeline(key: &GraphicsPipelineKey, entries: &Vec<ShaderEntry>) -> (outcome: Result<
    PipelinePlan,
    StageError,
>)
    ensures
        match assign_stages(entries@) {
            Ok(stages) => outcome matches Ok(plan) && plan@ == spec_plan(key@, stages),
            Err(error) => outcome == Err::<PipelinePlan, StageError>(error),
        },
{
    let mut stages: Vec<StagePlan> = Vec::new();
    let mut vertex_taken = false;
    let mut pixel_taken = false;
    let mut i: usize = 0;
    assert(entries@.take(0) =~= Seq::<ShaderEntry>::empty());
    while i < entries.len()
        invariant
            i <= entries@.len(),
            assign_stages(entries@.take(i as int)) == Ok::<Seq<StagePlan>, StageError>(stages@),
            vertex_taken == stage_taken(stages@, ShaderStage { bits: 1 }),
            pixel_taken == stage_taken(stages@, ShaderStage { bits: 2 }),
        decreases entries@.len() - i,
    {
        let entry = entries[i];
        let ghost before = stages@;
        proof {
            assert(entries@.take(i + 1).drop_last() =~= entries@.take(i as int));
            assert(entries@.take(i + 1).last() == entry);
        }
        let stage = if entry.model == EXECUTION_MODEL_VERTEX {
            ShaderStage::vertex()
        } else if entry.model == EXECUTION_MODEL_FRAGMENT {
            ShaderStage::pixel()
        } else {
            proof {
                lemma_assign_error_persists(entries@, i + 1);
            }
            return Err(StageError::Unsupported { shader: entry.shader, model: entry.model });
        };
        assert(stage_of_model(entry.model) == Some(stage));
        let taken = if entry.model == EXECUTION_MODEL_VERTEX {
            vertex_taken
        } else {
            pixel_taken
        };
        if taken {
            proof {
                lemma_assign_error_persists(entries@, i + 1);
            }
            return Err(StageError::Duplicate { shader: entry.shader, stage });
        }
        stages.push(StagePlan { shader: entry.shader, stage });
        if entry.model == EXECUTION_MODEL_VERTEX {
            vertex_taken = true;
        } else {
            pixel_taken = true;
        }
        proof {
            let after = stages@;
            assert(after == before.push(StagePlan { shader: entry.shader, stage }));
            assert(after[before.len() as int].stage == stage);
            assert forall|other: ShaderStage| other != stage implies stage_taken(after, other)
                == stage_taken(before, other) by {
                if stage_taken(after, other) {
                    let k = choose|k: int| 0 <= k < after.len() && #[trigger] after[k].stage == other;
                    assert(before[k].stage == other);
                }
                if stage_taken(before, other) {
                    let k = choose|k: int|
                        0 <= k < before.len() && #[trigger] before[k].stage == other;
                    assert(after[k].stage == other);
                }
            }
        }
        i += 1;
    }
    assert(entries@.take(i as int) =~= entries@);
    Ok(
        PipelinePlan {
            stages,
            color_format: image_format_to_vulkan(key.color_attachment),
            depth_format: image_format_to_vulkan(key.depth_attachment),
            blend: BlendPlan {
                enable: key.blend_enable,
                src_color: blend_factor_to_vulkan(key.src_blend),
                dst_color: blend_factor_to_vulkan(key.dst_blend),
                color_op: blend_op_to_vulkan(key.blend_op),
                src_alpha: blend_factor_to_vulkan(key.src_blend_alpha),
                dst_alpha: blend_factor_to_vulkan(key.dst_blend_alpha),
                alpha_op: blend_op_to_vulkan(key.blend_alpha),
            },
        },
    )
}

/// Once a prefix of the entry points fails, the whole list fails in the same
/// way.
pub proof fn lemma_assign_error_persists(entries: Seq<ShaderEntry>, n: int)
    requires
        0 <= n <= entries.len(),
        assign_stages(entries.take(n)) is Err,
    ensures
        assign_stages(entries) == assign_stages(entries.take(n)),
    decreases entries.len() - n,
{
    if n < entries.len() {
        assert(entries.take(n + 1).drop_last() =~= entries.take(n));
        lemma_assign_error_persists(entries, n + 1);
    } else {
        assert(entries.take(n) =~= entries);
    }
}

/// The word that four bytes spell, least significant byte first.
pub open spec fn word_of(b0: u8, b1: u8, b2: u8, b3: u8) -> u32 {
    (b0 as int + 256 * (b1 as int) + 65536 * (b2 as int) + 16777216 * (b3 as int)) as u32
}

/// The words of a shader binary: each group of four bytes, least significant
/// byte first. Bytes after the last whole group are not part of any word.
pub open spec fn words_of(bytes: Seq<u8>) -> Seq<u32> {
    Seq::new(
        (bytes.len() / 4) as nat,
        |i: int| word_of(bytes[4 * i], bytes[4 * i + 1], bytes[4 * i + 2], bytes[4 * i + 3]),
    )
}

/// The words of a shader binary.
pub fn shader_words(bytes: &[u8]) -> (words: Vec<u32>)
    ensures
        words@ == words_of(bytes@),
{
    let len = bytes.len();
    let count = len / 4;
    let mut words: Vec<u32> = Vec::new();
    let mut i: usize = 0;
    while i < count
        invariant
            len == bytes@.len(),
            count == len / 4,
            4 * count <= len,
            i <= count,
            words@.len() == i,
            forall|k: int| 0 <= k < i ==> #[trigger] words@[k] == words_of(bytes@)[k],
        decreases count - i,
    {
        let b0 = bytes[4 * i];
        let b1 = bytes[4 * i + 1];
        let b2 = bytes[4 * i + 2];
        let b3 = bytes[4 * i + 3];
        let word: u32 = b0 as u32 + 256 * (b1 as u32) + 65536 * (b2 as u32) + 16777216 * (
        b3 as u32);
        words.push(word);
        i += 1;
    }
    assert(words@ =~= words_of(bytes@));
    words
}

/// The first word of a shader module.
pub const SPIRV_MAGIC: u32 = 0x07230203;

/// The first word of a shader module that was written in the byte order of
/// a machine of the other kind.
pub const SPIRV_MAGIC_SWAPPED: u32 = 0x03022307;

/// Number of words of the header of a shader module.
pub const SPIRV_HEADER_WORDS: usize = 5;

/// Operation code of the instruction that declares an entry point.
pub const OP_ENTRY_POINT: u32 = 15;

/// Whether an execution model number is one that has a name.
pub open spec fn spec_is_model_known(model: u32) -> bool {
    model <= 6 || 5267 <= model <= 5268 || 5313 <= model <= 5318 || 5364 <= model <= 5365
}

/// Whether an execution model number is one that has a name.
#[verifier::when_used_as_spec(spec_is_model_known)]
pub fn is_model_known(model: u32) -> (known: bool)
    ensures
        known == spec_is_model_known(model),
{
    model <= 6 || (5267 <= model && model <= 5268) || (5313 <= model && model <= 5318) || (5364
        <= model && model <= 5365)
}

/// Largest number of entry points of a module that is reflected.
pub const MAX_ENTRY_POINTS: usize = 64;

/// Why a shader module is not reflected.
#[derive(Clone, Copy, Debug, PartialEq, Eq, Structural)]
pub enum Refusal {
    /// The module is in the byte order of another machine, declares an
    /// entry point in an instruction too short to name one, or declares
    /// more entry points than are reflected.
    Malformed,
    /// The module declares an entry point whose execution model, given
    /// here, has no name.
    Unknown(u32),
}

/// Number of words of the instruction that begins with the given word.
pub open spec fn instruction_len(word: u32) -> nat {
    (word >> 16u32) as nat
}

/// Operation code of the instruction that begins with the given word.
pub open spec fn instruction_op(word: u32) -> u32 {
    word & 0xffff
}

/// The declared models followed by what the rest of a walk finds.
pub open spec fn after_models(models: Seq<u32>, rest: Result<Seq<u32>, Refusal>) -> Result<
    Seq<u32>,
    Refusal,
> {
    match rest {
        Ok(later) => Ok(models + later),
        Err(refusal) => Err(refusal),
    }
}

/// What a walk over the instructions from `offset` on finds: the execution
/// models of the entry point declarations, in the order of the
/// declarations. The walk ends at the end of the words, at an instruction
/// without words or at one that runs past the end. A declaration that is
/// too short, or whose execution model has no name, refuses the module.
pub open spec fn inspect_from(words: Seq<u32>, offset: nat) -> Result<Seq<u32>, Refusal>
    decreases words.len() - offset,
{
    if offset >= words.len() {
        Ok(Seq::empty())
    } else {
        let word = words[offset as int];
        let count = instruction_len(word);
        if count == 0 || offset + count > words.len() {
            Ok(Seq::empty())
        } else if instruction_op(word) != OP_ENTRY_POINT {
            inspect_from(words, offset + count)
        } else if count < 3 {
            Err(Refusal::Malformed)
        } else if !spec_is_model_known(words[offset as int + 1]) {
            Err(Refusal::Unknown(words[offset as int + 1]))
        } else {
            after_models(seq![words[offset as int + 1]], inspect_from(words, offset + count))
        }
    }
}

/// The execution models of the entry points that a shader module declares,
/// in the order of the declarations, or why the module is not reflected.
/// Words that do not begin like a module of this machine's byte order
/// declare nothing.
pub open spec fn spec_inspect(words: Seq<u32>) -> Result<Seq<u32>, Refusal> {
    if words.len() > 0 && words[0] == SPIRV_MAGIC_SWAPPED {
        Err(Refusal::Malformed)
    } else if words.len() < SPIRV_HEADER_WORDS || words[0] != SPIRV_MAGIC {
        Ok(Seq::empty())
    } else {
        match inspect_from(words, SPIRV_HEADER_WORDS as nat) {
            Err(refusal) => Err(refusal),
            Ok(models) => if models.len() > MAX_ENTRY_POINTS {
                Err(Refusal::Malformed)
            } else {
                Ok(models)
            },
        }
    }
}

/// Whether every number of a list is an execution model that has a name.
pub open spec fn all_known(models: Seq<u32>) -> bool {
    forall|i: int| 0 <= i < models.len() ==> spec_is_model_known(#[trigger] models[i])
}

/// Reads the entry point declarations of a shader module.
pub fn inspect(words: &[u32]) -> (found: Result<Vec<u32>, Refusal>)
    ensures
        match spec_inspect(words@) {
            Ok(models) => found matches Ok(list) && list@ == models,
            Err(refusal) => found == Err::<Vec<u32>, Refusal>(refusal),
        },
        found matches Ok(list) ==> list@.len() <= MAX_ENTRY_POINTS && all_known(list@),
{
    let len = words.len();
    if len > 0 && words[0] == SPIRV_MAGIC_SWAPPED {
        return Err(Refusal::Malformed);
    }
    let mut models: Vec<u32> = Vec::new();
    if len < SPIRV_HEADER_WORDS || words[0] != SPIRV_MAGIC {
        return Ok(models);
    }
    let ghost whole = inspect_from(words@, SPIRV_HEADER_WORDS as nat);
    let mut offset: usize = SPIRV_HEADER_WORDS;
    let mut walking = true;
    assert(after_models(models@, whole) == whole) by {
        if let Ok(later) = whole {
            assert(models@ + later =~= later);
        }
    }
    while walking && offset < len
        invariant
            len == words@.len(),
            SPIRV_HEADER_WORDS <= len,
            words@[0] == SPIRV_MAGIC,
            offset <= len,
            whole == inspect_from(words@, SPIRV_HEADER_WORDS as nat),
            whole == after_models(models@, inspect_from(words@, offset as nat)),
            !walking ==> inspect_from(words@, offset as nat) == Ok::<Seq<u32>, Refusal>(
                Seq::empty(),
            ),
            all_known(models@),
        decreases (if walking { 1int } else { 0int }), len - offset,
    {
        let word = words[offset];
        let count = (word >> 16u32) as usize;
        if count == 0 || count > len - offset {
            walking = false;
        } else {
            if word & 0xffff == OP_ENTRY_POINT {
                if count < 3 {
                    return Err(Refusal::Malformed);
                }
                let model = words[offset + 1];
                if !is_model_known(model) {
                    return Err(Refusal::Unknown(model));
                }
                let ghost before = models@;
                let ghost rest = inspect_from(words@, (offset + count) as nat);
                models.push(model);
                proof {
                    assert(models@ =~= before + seq![model]);
                    if let Ok(later) = rest {
                        assert(before + (seq![model] + later) =~= models@ + later);
                    }
                }
            }
            offset = offset + count;
        }
    }
    proof {
        let rest = inspect_from(words@, offset as nat);
        assert(rest == Ok::<Seq<u32>, Refusal>(Seq::empty()));
        assert(models@ + Seq::<u32>::empty() =~= models@);
    }
    if models.len() > MAX_ENTRY_POINTS {
        return Err(Refusal::Malformed);
    }
    Ok(models)
}

/// The words that declare the first `count` of the given entry points, each
/// under the name `main` for a function of its own.
pub open spec fn entry_part(models: Seq<u32>, count: nat) -> Seq<u32>
    decreases count,
{
    if count == 0 {
        Seq::empty()
    } else {
        entry_part(models, (count - 1) as nat) + seq![
            0x0005000fu32,
            models[count - 1],
            (3 + 2 * (count - 1)) as u32,
            0x6e69616du32,
            0u32,
        ]
    }
}

/// The words of `count` functions that return at once, one for each entry
/// point.
pub open spec fn stub_part(count: nat) -> Seq<u32>
    decreases count,
{
    if count == 0 {
        Seq::empty()
    } else {
        stub_part((count - 1) as nat) + seq![
            0x00050036u32,
            1u32,
            (3 + 2 * (count - 1)) as u32,
            0u32,
            2u32,
            0x000200f8u32,
            (4 + 2 * (count - 1)) as u32,
            0x000100fdu32,
            0x00010038u32,
        ]
    }
}

/// The module that declares entry points with the given execution models
/// and nothing else: the header, the shader capability, the memory model,
/// the declarations, the two types of a function without parameters or
/// result, and one function of one block for each entry point.
pub open spec fn spec_entry_module(models: Seq<u32>) -> Seq<u32> {
    seq![
        SPIRV_MAGIC,
        0x00010000u32,
        0u32,
        (3 + 2 * models.len()) as u32,
        0u32,
        0x00020011u32,
        1u32,
        0x0003000eu32,
        0u32,
        1u32,
    ] + entry_part(models, models.len()) + seq![
        0x00020013u32,
        1u32,
        0x00030021u32,
        2u32,
        1u32,
    ] + stub_part(models.len())
}

/// Whether the words are a module that declares entry points with named
/// execution models and nothing else.
pub open spec fn is_entry_module(words: Seq<u32>) -> bool {
    exists|models: Seq<u32>|
        models.len() <= MAX_ENTRY_POINTS && all_known(models) && #[trigger] spec_entry_module(
            models,
        ) == words
}

/// Builds the module that declares entry points with the given execution
/// models and nothing else.
pub fn entry_module(models: &Vec<u32>) -> (words: Vec<u32>)
    requires
        models@.len() <= MAX_ENTRY_POINTS,
    ensures
        words@ == spec_entry_module(models@),
{
    let count = models.len();
    let mut words: Vec<u32> = Vec::new();
    words.push(SPIRV_MAGIC);
    words.push(0x00010000);
    words.push(0);
    words.push((3 + 2 * count) as u32);
    words.push(0);
    words.push(0x00020011);
    words.push(1);
    words.push(0x0003000e);
    words.push(0);
    words.push(1);
    let ghost head = words@;
    let mut i: usize = 0;
    assert(words@ =~= head + entry_part(models@, 0));
    while i < count
        invariant
            count == models@.len(),
            count <= MAX_ENTRY_POINTS,
            i <= count,
            words@ == head + entry_part(models@, i as nat),
        decreases count - i,
    {
        let ghost before = words@;
        words.push(0x0005000f);
        words.push(models[i]);
        words.push((3 + 2 * i) as u32);
        words.push(0x6e69616d);
        words.push(0);
        assert(words@ =~= before + seq![
            0x0005000fu32,
            models@[i as int],
            (3 + 2 * i) as u32,
            0x6e69616du32,
            0u32,
        ]);
        assert(words@ =~= head + entry_part(models@, (i + 1) as nat));
        i += 1;
    }
    words.push(0x00020013);
    words.push(1);
    words.push(0x00030021);
    words.push(2);
    words.push(1);
    let ghost middle = words@;
    assert(middle =~= head + entry_part(models@, count as nat) + seq![
        0x00020013u32,
        1u32,
        0x00030021u32,
        2u32,
        1u32,
    ]);
    let mut j: usize = 0;
    assert(words@ =~= middle + stub_part(0));
    while j < count
        invariant
            count <= MAX_ENTRY_POINTS,
            j <= count,
            words@ == middle + stub_part(j as nat),
        decreases count - j,
    {
        let ghost before = words@;
        words.push(0x00050036);
        words.push(1);
        words.push((3 + 2 * j) as u32);
        words.push(0);
        words.push(2);
        words.push(0x000200f8);
        words.push((4 + 2 * j) as u32);
        words.push(0x000100fd);
        words.push(0x00010038);
        assert(words@ =~= before + seq![
            0x00050036u32,
            1u32,
            (3 + 2 * j) as u32,
            0u32,
            2u32,
            0x000200f8u32,
            (4 + 2 * j) as u32,
            0x000100fdu32,
            0x00010038u32,
        ]);
        assert(words@ =~= middle + stub_part((j + 1) as nat));
        j += 1;
    }
    assert(words@ =~= spec_entry_module(models@));
    words
}

/// Whether the numbers of a list never decrease.
pub open spec fn ascending(models: Seq<u32>) -> bool {
    forall|i: int, j: int| 0 <= i < j < models.len() ==> models[i] <= models[j]
}

/// The numbers of a collection in ascending order.
pub open spec fn ascending_of(models: Multiset<u32>) -> Seq<u32> {
    choose|list: Seq<u32>| ascending(list) && list.to_multiset() == models
}

/// Two ascending lists of the same numbers are the same list.
pub proof fn lemma_ascending_is_unique(a: Seq<u32>, b: Seq<u32>)
    requires
        ascending(a),
        ascending(b),
        a.to_multiset() == b.to_multiset(),
    ensures
        a == b,
{
    let leq = |x: u32, y: u32| x <= y;
    assert(vstd::relations::sorted_by(a, leq));
    assert(vstd::relations::sorted_by(b, leq));
    assert(vstd::relations::total_ordering(leq));
    vstd::seq_lib::lemma_sorted_unique(a, b, leq);
}

/// Puts execution model numbers into ascending order.
pub fn sort_models(models: &Vec<u32>) -> (sorted: Vec<u32>)
    ensures
        ascending(sorted@),
        sorted@.to_multiset() == models@.to_multiset(),
        sorted@ == ascending_of(models@.to_multiset()),
{
    let mut sorted: Vec<u32> = Vec::new();
    let mut i: usize = 0;
    assert(models@.take(0) =~= Seq::<u32>::empty());
    while i < models.len()
        invariant
            i <= models@.len(),
            ascending(sorted@),
            sorted@.to_multiset() == models@.take(i as int).to_multiset(),
        decreases models@.len() - i,
    {
        let model = models[i];
        let mut at: usize = 0;
        while at < sorted.len() && sorted[at] <= model
            invariant
                at <= sorted@.len(),
                forall|k: int| 0 <= k < at ==> sorted@[k] <= model,
            decreases sorted@.len() - at,
        {
            at += 1;
        }
        let ghost before = sorted@;
        sorted.insert(at, model);
        proof {
            vstd::seq_lib::to_multiset_insert(before, at as int, model);
            assert(models@.take(i + 1) =~= models@.take(i as int).push(model));
            vstd::seq_lib::to_multiset_build(models@.take(i as int), model);
            let after = sorted@;
            assert forall|a: int, b: int| 0 <= a < b < after.len() implies after[a]
                <= after[b] by {
                if b < at {
                    assert(after[a] == before[a] && after[b] == before[b]);
                } else if b == at {
                    assert(after[a] == before[a]);
                } else if a < at {
                    assert(after[a] == before[a] && after[b] == before[b - 1]);
                    assert(before[a] <= model);
                    if at < before.len() {
                        assert(before[at as int] <= before[b - 1] || at == b - 1);
                    }
                } else if a == at {
                    assert(after[b] == before[b - 1]);
                    assert(before[at as int] <= before[b - 1] || at == b - 1);
                } else {
                    assert(after[a] == before[a - 1] && after[b] == before[b - 1]);
                }
            }
        }
        i += 1;
    }
    proof {
        assert(models@.take(i as int) =~= models@);
        let chosen = ascending_of(models@.to_multiset());
        assert(ascending(sorted@) && sorted@.to_multiset() == models@.to_multiset());
        lemma_ascending_is_unique(sorted@, chosen);
    }
    sorted
}

/// The error that the shader reflection library reports.
#[verifier::external_type_specification]
#[verifier::external_body]
pub struct ExSpirvCrossError(spirv_cross2::SpirvCrossError);

/// The execution model numbers of the entry points that the shader
/// reflection library lists for a module, in no order.
pub uninterp spec fn spirv_entry_models(words: Seq<u32>) -> Multiset<u32>;

/// Asks the shader reflection library for the entry points of a module.
/// Three functions of the library stand behind the one call, since the
/// compiler between them is not kept: `spirv_cross2::Module::from_words`,
/// `spirv_cross2::Compiler::new` for no output target, and
/// `Compiler::entry_points`, whose items are mapped to the numbers of
/// their execution models.
///
/// The library's parser reads operands and indexes its tables by what it
/// finds in a module without checking either, so it is given only modules
/// that [`entry_module`] built: they hold nine kinds of instruction, each
/// complete, name no identifier at or above their bound, and declare only
/// execution models that the library's iterator knows. Of a failure
/// nothing is claimed: the library reports lack of memory and a module it
/// rejects alike. On success the numbers listed are those that the library
/// lists for these words; their order is that of a hash table and is not
/// claimed.
#[verifier::external_body]
fn reflect_entry_models(words: &[u32]) -> (outcome: Result<Vec<u32>, spirv_cross2::SpirvCrossError>)
    requires
        is_entry_module(words@),
    ensures
        outcome matches Ok(models) ==> models@.to_multiset() == spirv_entry_models(words@),
{
    let module = spirv_cross2::Module::from_words(words);
    let compiler = spirv_cross2::Compiler::<spirv_cross2::targets::None>::new(module)?;
    let entries = compiler.entry_points()?;
    Ok(entries.map(|entry| entry.execution_model as u32).collect())
}

/// Why a pipeline could not be bound.
#[derive(Debug)]
pub enum PipelineError {
    /// The shader at the given position is in the byte order of another
    /// machine, declares an entry point in an instruction too short to name
    /// one, or declares more entry points than are reflected.
    Malformed { shader: usize },
    /// The reflection library failed on the shader at the given position.
    Reflection { shader: usize, cause: spirv_cross2::SpirvCrossError },
    /// The entry points of the shaders do not make a pipeline.
    Stage(StageError),
    /// The driver failed to create the pipeline, with the given result code.
    Driver(i32),
}

/// Why the shaders of a key do not make a pipeline, as far as the shaders
/// themselves decide it.
pub ghost enum BindFailure {
    Malformed { shader: usize },
    Stage(StageError),
}

/// Number of shaders that take part in a pipeline: those before the first
/// empty position.
pub open spec fn bound_shaders(key: KeyView) -> nat {
    if key.shaders[0] is None {
        0
    } else if key.shaders[1] is None {
        1
    } else {
        2
    }
}

/// The entry points with the given execution models, all of one shader.
pub open spec fn entries_of_models(shader: usize, models: Seq<u32>) -> Seq<ShaderEntry> {
    models.map(|i: int, model: u32| ShaderEntry { shader, model })
}

/// The failure that a refusal of the shader at the given position is.
pub open spec fn failure_of_refusal(shader: usize, refusal: Refusal) -> BindFailure {
    match refusal {
        Refusal::Malformed => BindFailure::Malformed { shader },
        Refusal::Unknown(model) => BindFailure::Stage(StageError::Unsupported { shader, model }),
    }
}

/// The entry points that one shader binary brings where the reflection
/// library succeeds, or why the binary is not reflected. The library is
/// given the module of the binary's declarations, and its list is taken by
/// ascending execution model.
pub open spec fn entries_of_shader(shader: usize, bytes: Seq<u8>) -> Result<
    Seq<ShaderEntry>,
    BindFailure,
> {
    match spec_inspect(words_of(bytes)) {
        Err(refusal) => Err(failure_of_refusal(shader, refusal)),
        Ok(declared) => Ok(
            entries_of_models(
                shader,
                ascending_of(spirv_entry_models(spec_entry_module(declared))),
            ),
        ),
    }
}

/// The entry points that the first `count` shaders of a key bring where the
/// reflection library succeeds, shader by shader, or the failure of the
/// first shader that is not reflected.
pub open spec fn reflected_entries(key: KeyView, count: nat) -> Result<
    Seq<ShaderEntry>,
    BindFailure,
>
    decreases count,
{
    if count == 0 || count > 2 {
        Ok(Seq::empty())
    } else {
        match reflected_entries(key, (count - 1) as nat) {
            Err(failure) => Err(failure),
            Ok(before) => match entries_of_shader(
                (count - 1) as usize,
                key.shaders[count - 1]->0,
            ) {
                Err(failure) => Err(failure),
                Ok(entries) => Ok(before + entries),
            },
        }
    }
}

/// What binding a key that has no pipeline yet comes to where the
/// reflection library succeeds: the plan of the pipeline to compile, or
/// the first failure.
pub open spec fn spec_miss(key: KeyView) -> Result<PlanView, BindFailure> {
    match reflected_entries(key, bound_shaders(key)) {
        Err(failure) => Err(failure),
        Ok(entries) => match assign_stages(entries) {
            Err(error) => Err(BindFailure::Stage(error)),
            Ok(stages) => Ok(spec_plan(key, stages)),
        },
    }
}

/// Whether an outcome is what binding `key` in a cache owes.
///
/// On a hit the kept pipeline is returned. On a miss the outcome is the
/// one that the shaders of the key decide, with one exception: the
/// reflection library may fail on a shader that is reflected, after all
/// shaders before it brought their entry points.
pub open spec fn bind_is_owed(
    cache: Map<KeyView, u64>,
    key: KeyView,
    outcome: Result<BindRequest, PipelineError>,
) -> bool {
    if cache.contains_key(key) {
        outcome matches Ok(BindRequest::Bind(pipeline)) && pipeline == cache[key]
    } else {
        match outcome {
            Ok(BindRequest::Bind(_)) => false,
            Ok(BindRequest::Compile(plan)) => spec_miss(key) == Ok::<PlanView, BindFailure>(plan@),
            Err(PipelineError::Malformed { shader }) => spec_miss(key) == Err::<
                PlanView,
                BindFailure,
            >(BindFailure::Malformed { shader }),
            Err(PipelineError::Stage(error)) => spec_miss(key) == Err::<PlanView, BindFailure>(
                BindFailure::Stage(error),
            ),
            Err(PipelineError::Reflection { shader, .. }) => {
                &&& shader < bound_shaders(key)
                &&& reflected_entries(key, shader as nat) is Ok
                &&& spec_inspect(words_of(key.shaders[shader as int]->0)) is Ok
            },
            Err(PipelineError::Driver(_)) => false,
        }
    }
}

/// Once the first shaders of a key fail, the key fails in the same way.
pub proof fn lemma_reflection_failure_persists(key: KeyView, count: nat, bound: nat)
    requires
        count <= bound <= 2,
        reflected_entries(key, count) is Err,
    ensures
        reflected_entries(key, bound) == reflected_entries(key, count),
    decreases bound - count,
{
    if count < bound {
        lemma_reflection_failure_persists(key, count + 1, bound);
    }
}

/// Turns what the reflection library answered for the shader at the given
/// position into the entry points that the shader brings, by ascending
/// execution model, or into the error that ends the binding.
pub fn entries_of_reflection(
    shader: usize,
    reflected: Result<Vec<u32>, spirv_cross2::SpirvCrossError>,
) -> (entries: Result<Vec<ShaderEntry>, PipelineError>)
    ensures
        match reflected {
            Ok(models) => entries matches Ok(list) && list@ == entries_of_models(
                shader,
                ascending_of(models@.to_multiset()),
            ),
            Err(failure) => entries matches Err(PipelineError::Reflection { shader: at, cause })
                && at == shader && cause == failure,
        },
{
    match reflected {
        Ok(models) => {
            let sorted = sort_models(&models);
            let mut list: Vec<ShaderEntry> = Vec::new();
            let mut i: usize = 0;
            while i < sorted.len()
                invariant
                    i <= sorted@.len(),
                    list@ == entries_of_models(shader, sorted@.take(i as int)),
                decreases sorted@.len() - i,
            {
                list.push(ShaderEntry { shader, model: sorted[i] });
                assert(list@ =~= entries_of_models(shader, sorted@.take(i + 1)));
                i += 1;
            }
            assert(sorted@.take(i as int) =~= sorted@);
            Ok(list)
        },
        Err(cause) => Err(PipelineError::Reflection { shader, cause }),
    }
}

/// One compiled pipeline and the key it was compiled for.
struct CacheEntry {
    key: GraphicsPipelineKey,
    pipeline: u64,
}

/// What binding a key asks of the caller.
#[derive(Debug)]
pub enum BindRequest {
    /// The pipeline exists: bind it.
    Bind(u64),
    /// No pipeline exists for the key: compile this plan, then report the
    /// driver's answer with [`PipelineCache::record`].
    Compile(PipelinePlan),
}

/// The compiled pipelines, by key.
pub struct PipelineCache {
    entries: Vec<CacheEntry>,
}

impl PipelineCache {
    /// Position of the entry with the given key.
    spec fn position(&self, key: KeyView) -> int {
        choose|i: int| 0 <= i < self.entries@.len() && self.entries@[i].key@ == key
    }

    /// No two entries have the same key.
    pub closed spec fn wf(&self) -> bool {
        forall|i: int, j: int|
            0 <= i < self.entries@.len() && 0 <= j < self.entries@.len() && i != j
                ==> self.entries@[i].key@ != self.entries@[j].key@
    }

    /// A cache without pipelines.
    pub fn new() -> (cache: PipelineCache)
        ensures
            cache.wf(),
            cache@ == Map::<KeyView, u64>::empty(),
    {
        let cache = PipelineCache { entries: Vec::new() };
        assert(cache@ =~= Map::<KeyView, u64>::empty());
        cache
    }

    /// Position of the entry whose key equals `key`, if there is one.
    fn find(&self, key: &GraphicsPipelineKey) -> (found: Option<usize>)
        requires
            self.wf(),
        ensures
            match found {
                Some(i) => i < self.entries@.len() && self.entries@[i as int].key@ == key@
                    && self@.contains_key(key@) && self@[key@] == self.entries@[i as int].pipeline,
                None => !self@.contains_key(key@) && forall|k: int|
                    0 <= k < self.entries@.len() ==> self.entries@[k].key@ != key@,
            },
    {
        let mut i: usize = 0;
        while i < self.entries.len()
            invariant
                self.wf(),
                i <= self.entries@.len(),
                forall|k: int| 0 <= k < i ==> self.entries@[k].key@ != key@,
            decreases self.entries@.len() - i,
        {
            if self.entries[i].key == *key {
                proof {
                    let at = self.position(key@);
                    assert(at == i);
                }
                return Some(i);
            }
            i += 1;
        }
        None
    }

    /// The pipeline compiled for `key`, if there is one.
    pub fn lookup(&self, key: &GraphicsPipelineKey) -> (pipeline: Option<u64>)
        requires
            self.wf(),
        ensures
            pipeline == if self@.contains_key(key@) {
                Some(self@[key@])
            } else {
                None
            },
    {
        match self.find(key) {
            Some(i) => Some(self.entries[i].pipeline),
            None => None,
        }
    }

    /// Number of compiled pipelines.
    pub fn len(&self) -> (count: usize)
        requires
            self.wf(),
        ensures
            count == self@.dom().len(),
            self@.dom().finite(),
    {
        proof {
            self.lemma_domain_size();
        }
        self.entries.len()
    }

    /// The cache holds as many keys as it has entries.
    proof fn lemma_domain_size(&self)
        requires
            self.wf(),
        ensures
            self@.dom().finite(),
            self@.dom().len() == self.entries@.len(),
    {
        let keys = self.entries@.map(|i: int, entry: CacheEntry| entry.key@);
        assert(keys.no_duplicates());
        keys.unique_seq_to_set();
        assert(keys.to_set() =~= self@.dom()) by {
            assert forall|key: KeyView| keys.to_set().contains(key) implies self@.dom().contains(
                key,
            ) by {
                let i = choose|i: int| 0 <= i < keys.len() && keys[i] == key;
                assert(self.entries@[i].key@ == key);
            }
            assert forall|key: KeyView| self@.dom().contains(key) implies keys.to_set().contains(
                key,
            ) by {
                let i = self.position(key);
                assert(keys[i] == key);
            }
        }
        vstd::seq_lib::seq_to_set_is_finite(keys);
    }

    /// Keeps `pipeline` as the pipeline of `key`. A pipeline kept for the key
    /// before is replaced: the last one kept wins.
    pub fn insert(&mut self, key: GraphicsPipelineKey, pipeline: u64)
        requires
            old(self).wf(),
        ensures
            final(self).wf(),
            final(self)@ == old(self)@.insert(key@, pipeline),
    {
        let ghost before = self.entries@;
        let ghost old_map = self@;
        match self.find(&key) {
            Some(i) => {
                self.entries.set(i, CacheEntry { key, pipeline });
                proof {
                    let after = self.entries@;
                    assert forall|k: int| 0 <= k < after.len() implies #[trigger] after[k].key@
                        == before[k].key@ by {}
                    assert forall|k: KeyView| #[trigger]
                        self@.contains_key(k) == old_map.insert(key@, pipeline).contains_key(k) by {
                        if self@.contains_key(k) {
                            let at = self.position(k);
                            assert(before[at].key@ == k);
                        }
                        if old_map.insert(key@, pipeline).contains_key(k) {
                            if k == key@ {
                                assert(after[i as int].key@ == k);
                            } else {
                                let at = old(self).position(k);
                                assert(after[at].key@ == k);
                            }
                        }
                    }
                    assert forall|k: KeyView| self@.contains_key(k) implies #[trigger]  self@[k]
                        == old_map.insert(key@, pipeline)[k] by {
                        let at = self.position(k);
                        if k == key@ {
                            assert(at == i);
                        } else {
                            let was = old(self).position(k);
                            assert(before[at].key@ == k);
                            assert(was == at);
                        }
                    }
                    assert(self@ =~= old_map.insert(key@, pipeline));
                }
            },
            None => {
                self.entries.push(CacheEntry { key, pipeline });
                proof {
                    let after = self.entries@;
                    let last = before.len() as int;
                    assert forall|k: int| 0 <= k < before.len() implies #[trigger] after[k]
                        == before[k] by {}
                    assert(after[last].key@ == key@);
                    assert forall|k: KeyView| #[trigger]
                        self@.contains_key(k) == old_map.insert(key@, pipeline).contains_key(k) by {
                        if self@.contains_key(k) {
                            let at = self.position(k);
                            if at < last {
                                assert(before[at].key@ == k);
                            }
                        }
                        if old_map.insert(key@, pipeline).contains_key(k) {
                            if k == key@ {
                                assert(after[last].key@ == k);
                            } else {
                                let at = old(self).position(k);
                                assert(after[at].key@ == k);
                            }
                        }
                    }
                    assert forall|k: KeyView| self@.contains_key(k) implies #[trigger] self@[k]
                        == old_map.insert(key@, pipeline)[k] by {
                        let at = self.position(k);
                        if k == key@ {
                            assert(at == last);
                        } else {
                            let was = old(self).position(k);
                            assert(before[at].key@ == k);
                            assert(was == at);
                        }
                    }
                    assert(self@ =~= old_map.insert(key@, pipeline));
                }
            },
        }
    }
}

impl View for PipelineCache {
    type V = Map<KeyView, u64>;

    closed spec fn view(&self) -> Map<KeyView, u64> {
        Map::new(
            |key: KeyView|
                exists|i: int| 0 <= i < self.entries@.len() && self.entries@[i].key@ == key,
            |key: KeyView| self.entries@[self.position(key)].pipeline,
        )
    }
}

/// Number of shaders of `key` that take part in a pipeline.
pub fn shader_count(key: &GraphicsPipelineKey) -> (count: usize)
    ensures
        count == bound_shaders(key@),
        count <= MAX_SHADERS,
{
    if key.shaders[0].is_none() {
        0
    } else if key.shaders[1].is_none() {
        1
    } else {
        2
    }
}

impl PipelineCache {
    /// Finds the pipeline of `key`, or plans its compilation.
    ///
    /// When a pipeline is kept for the key, it is returned to be bound and
    /// nothing else happens. Otherwise the shaders of the key are taken in
    /// order: the entry point declarations of each are read, the module of
    /// these declarations is handed to the reflection library, and the
    /// entry points that the library lists are taken by ascending execution
    /// model. The entry points of all shaders are then assigned to stages.
    /// The first shader that is refused or on which the library fails, or
    /// an invalid assignment, ends the call with an error; nothing is kept
    /// for the key in that case.
    pub fn bind_or_create(&self, key: &GraphicsPipelineKey) -> (outcome: Result<
        BindRequest,
        PipelineError,
    >)
        requires
            self.wf(),
        ensures
            bind_is_owed(self@, key@, outcome),
            !self@.contains_key(key@) && bound_shaders(key@) == 0 ==> (outcome matches Ok(
                BindRequest::Compile(plan),
            ) && plan@ == spec_plan(key@, Seq::empty())),
    {
        if let Some(pipeline) = self.lookup(key) {
            return Ok(BindRequest::Bind(pipeline));
        }
        let count = shader_count(key);
        let mut entries: Vec<ShaderEntry> = Vec::new();
        let mut i: usize = 0;
        while i < count
            invariant
                !self@.contains_key(key@),
                count == bound_shaders(key@),
                i <= count <= 2,
                reflected_entries(key@, i as nat) == Ok::<Seq<ShaderEntry>, BindFailure>(entries@),
            decreases count - i,
        {
            assert(key@.shaders[i as int] == shader_bytes(key.shaders@[i as int]));
            let shader: &'static [u8] = key.shaders[i].unwrap();
            let words = shader_words(shader);
            let declared = match inspect(words.as_slice()) {
                Ok(declared) => declared,
                Err(refusal) => {
                    proof {
                        lemma_reflection_failure_persists(key@, (i + 1) as nat, count as nat);
                    }
                    return Err(
                        match refusal {
                            Refusal::Malformed => PipelineError::Malformed { shader: i },
                            Refusal::Unknown(model) => PipelineError::Stage(
                                StageError::Unsupported { shader: i, model },
                            ),
                        },
                    );
                },
            };
            let module = entry_module(&declared);
            assert(is_entry_module(module@)) by {
                assert(spec_entry_module(declared@) == module@);
            }
            let reflected = reflect_entry_models(module.as_slice());
            let mut found = match entries_of_reflection(i, reflected) {
                Ok(found) => found,
                Err(error) => {
                    return Err(error);
                },
            };
            entries.append(&mut found);
            i += 1;
        }
        match plan_pipeline(key, &entries) {
            Ok(plan) => Ok(BindRequest::Compile(plan)),
            Err(error) => Err(PipelineError::Stage(error)),
        }
    }

    /// Takes note of the driver's answer to a compilation that
    /// [`PipelineCache::bind_or_create`] asked for. A created pipeline is
    /// kept for the key and returned to be bound; a failure is handed on and
    /// nothing is kept.
    pub fn record(&mut self, key: GraphicsPipelineKey, created: Result<u64, i32>) -> (outcome:
        Result<u64, PipelineError>)
        requires
            old(self).wf(),
        ensures
            final(self).wf(),
            match created {
                Ok(pipeline) => outcome matches Ok(bound) && bound == pipeline && final(self)@
                    == old(self)@.insert(key@, pipeline),
                Err(code) => outcome matches Err(PipelineError::Driver(reported)) && reported
                    == code && final(self)@ == old(self)@,
            },
    {
        match created {
            Ok(pipeline) => {
                self.insert(key, pipeline);
                Ok(pipeline)
            },
            Err(code) => Err(PipelineError::Driver(code)),
        }
    }

    /// The compiled pipelines, each kept pipeline once per key that holds it.
    pub fn pipelines(&self) -> (all: Vec<u64>)
        requires
            self.wf(),
        ensures
            all@.len() == self@.dom().len(),
            forall|pipeline: u64|
                all@.contains(pipeline) <==> exists|key: KeyView|
                    self@.contains_key(key) && self@[key] == pipeline,
    {
        proof {
            self.lemma_domain_size();
        }
        let mut all: Vec<u64> = Vec::new();
        let mut i: usize = 0;
        while i < self.entries.len()
            invariant
                i <= self.entries@.len(),
                all@.len() == i,
                forall|k: int| 0 <= k < i ==> #[trigger] all@[k] == self.entries@[k].pipeline,
            decreases self.entries@.len() - i,
        {
            all.push(self.entries[i].pipeline);
            i += 1;
        }
        proof {
            assert forall|pipeline: u64| all@.contains(pipeline) implies exists|key: KeyView|
                self@.contains_key(key) && self@[key] == pipeline by {
                let k = choose|k: int| 0 <= k < all@.len() && all@[k] == pipeline;
                let key = self.entries@[k].key@;
                assert(self@.contains_key(key));
                let at = self.position(key);
                assert(self.entries@[at].key@ == key);
                assert(at == k);
                assert(self@[key] == pipeline);
            }
            assert forall|pipeline: u64|
                (exists|key: KeyView|
                    self@.contains_key(key) && self@[key] == pipeline) implies all@.contains(
                pipeline,
            ) by {
                let key = choose|key: KeyView| self@.contains_key(key) && self@[key] == pipeline;
                let k = self.position(key);
                assert(all@[k] == pipeline);
            }
        }
        all
    }
}

/// Once a pipeline is kept for a key, every key equal to it finds that
/// pipeline, so binding an equal key compiles nothing again; keys that differ
/// are not affected.
pub proof fn law_equal_keys_share_one_pipeline(
    cache: Map<KeyView, u64>,
    first: KeyView,
    second: KeyView,
    pipeline: u64,
)
    ensures
        first == second ==> cache.insert(first, pipeline).contains_key(second) && cache.insert(
            first,
            pipeline,
        )[second] == pipeline,
        first != second ==> cache.insert(first, pipeline).contains_key(second)
            == cache.contains_key(second),
        first != second && cache.contains_key(second) ==> cache.insert(first, pipeline)[second]
            == cache[second],
{
}

/// Keys that agree in every state field and whose shader binaries hold the
/// same bytes are the same key, wherever the bytes are stored.
pub proof fn law_keys_compare_by_content(a: GraphicsPipelineKey, b: GraphicsPipelineKey)
    requires
        a.color_attachment == b.color_attachment,
        a.depth_attachment == b.depth_attachment,
        shader_bytes(a.shaders@[0]) == shader_bytes(b.shaders@[0]),
        shader_bytes(a.shaders@[1]) == shader_bytes(b.shaders@[1]),
        a.blend_enable == b.blend_enable,
        a.src_blend == b.src_blend,
        a.dst_blend == b.dst_blend,
        a.blend_alpha == b.blend_alpha,
        a.blend_op == b.blend_op,
        a.src_blend_alpha == b.src_blend_alpha,
        a.dst_blend_alpha == b.dst_blend_alpha,
    ensures
        a@ == b@,
{
    assert(a@.shaders =~= b@.shaders);
}

/// A valid stage assignment gives every stage to at most one entry point,
/// and every entry point a stage, in the order of the entry points.
pub proof fn law_assigned_stages_are_distinct(entries: Seq<ShaderEntry>)
    requires
        assign_stages(entries) is Ok,
    ensures
        assign_stages(entries)->Ok_0.len() == entries.len(),
        forall|i: int|
            0 <= i < entries.len() ==> (#[trigger] assign_stages(entries)->Ok_0[i]).shader
                == entries[i].shader && stage_of_model(entries[i].model) == Some(
                assign_stages(entries)->Ok_0[i].stage,
            ),
        forall|i: int, j: int|
            0 <= i < j < entries.len() ==> (#[trigger] assign_stages(entries)->Ok_0[i]).stage != (
            #[trigger] assign_stages(entries)->Ok_0[j]).stage,
    decreases entries.len(),
{
    if entries.len() > 0 {
        let shorter = entries.drop_last();
        law_assigned_stages_are_distinct(shorter);
        let stages = assign_stages(shorter)->Ok_0;
        let all = assign_stages(entries)->Ok_0;
        let stage = stage_of_model(entries.last().model)->0;
        assert(all == stages.push(StagePlan { shader: entries.last().shader, stage }));
        assert forall|i: int, j: int| 0 <= i < j < entries.len() implies (#[trigger] all[i]).stage
            != (#[trigger] all[j]).stage by {
            if j == entries.len() - 1 {
                assert(stages[i].stage == all[i].stage);
                assert(!stage_taken(stages, stage));
            } else {
                assert(stages[i] == all[i]);
                assert(stages[j] == all[j]);
            }
        }
        assert forall|i: int| 0 <= i < entries.len() implies (#[trigger] all[i]).shader
            == entries[i].shader && stage_of_model(entries[i].model) == Some(all[i].stage) by {
            if i < entries.len() - 1 {
                assert(stages[i] == all[i]);
                assert(shorter[i] == entries[i]);
            }
        }
    }
}

} // verus!
