//! Plain descriptions of resources and render state shared by all components.

use vstd::prelude::*;

verus! {

/// Where a buffer's memory lives and how the host reaches it.
#[derive(Clone, Copy, Debug, PartialEq, Eq, Hash, Structural)]
pub enum BufferFlags {
    /// Device-local memory the host cannot map.
    Default,
    /// Host-visible, coherent memory for data on its way to the device.
    Upload,
    /// Host-visible, coherent memory for data on its way back to the host.
    Readback,
    /// Device-local memory the host can write to directly.
    DeviceUpload,
}

/// Texel formats of images and attachments.
#[derive(Clone, Copy, Debug, PartialEq, Eq, Hash, Structural)]
pub enum ImageFormat {
    Unknown,
    R32Sint,
    R16G16B16A16Sfloat,
    R16G16B16A16Unorm,
    R8G8B8A8Unorm,
    B8G8R8A8Srgb,
    D32SFloat,
}

/// Comparison applied by the depth test.
#[derive(Clone, Copy, Debug, PartialEq, Eq, Hash, Structural)]
pub enum CompareOperation {
    /// The test never passes.
    Never,
    Greater,
    GreaterEqual,
    LesserEqual,
}

/// Width of the indices in an index buffer.
#[derive(Clone, Copy, Debug, PartialEq, Eq, Hash, Structural)]
pub enum IndexType {
    U16,
    U32,
}

/// Weight of a colour in a blend equation.
#[derive(Clone, Copy, Debug, PartialEq, Eq, Hash, Structural)]
pub enum BlendFactor {
    Zero,
    One,
    SrcAlpha,
    DstAlpha,
    OneMinusSrcAlpha,
}

/// Operator of a blend equation.
#[derive(Clone, Copy, Debug, PartialEq, Eq, Hash, Structural)]
pub enum BlendOp {
    Add,
}

/// The kinds of queue a context offers.
#[derive(Clone, Copy, Debug, PartialEq, Eq, Hash, Structural)]
pub enum QueueType {
    Graphics,
}

/// Width and height in texels.
#[derive(Clone, Copy, Debug, PartialEq, Eq, Hash, Structural)]
pub struct Extent {
    pub width: u32,
    pub height: u32,
}

impl Extent {
    /// Whether either dimension is zero.
    pub open spec fn spec_is_degenerate(self) -> bool {
        self.width == 0 || self.height == 0
    }

    /// Whether either dimension is zero.
    #[verifier::when_used_as_spec(spec_is_degenerate)]
    pub fn is_degenerate(self) -> (degenerate: bool)
        ensures
            degenerate == self.spec_is_degenerate(),
    {
        self.width == 0 || self.height == 0
    }
}

/// The ways an image may be used, as a set of flags.
#[derive(Clone, Copy, Debug, PartialEq, Eq, Hash, Structural)]
pub struct ImageUsage {
    pub bits: u32,
}

impl ImageUsage {
    /// The bits of all flags that have a name.
    pub open spec fn known_bits() -> u32 {
        63
    }

    /// Whether no bit without a name is set.
    pub open spec fn spec_is_known(self) -> bool {
        self.bits & !Self::known_bits() == 0
    }

    /// Whether every flag of `other` is set in `self`.
    pub open spec fn spec_contains(self, other: ImageUsage) -> bool {
        self.bits & other.bits == other.bits
    }

    /// The set without any flag.
    pub fn empty() -> (flags: ImageUsage)
        ensures
            flags.bits == 0,
    {
        ImageUsage { bits: 0 }
    }

    /// The set of all flags that have a name.
    pub fn all() -> (flags: ImageUsage)
        ensures
            flags.bits == Self::known_bits(),
    {
        ImageUsage { bits: 63 }
    }

    /// Rendered to as a colour attachment.
    pub fn color_attachment() -> (flags: ImageUsage)
        ensures
            flags.bits == 1,
    {
        ImageUsage { bits: 1 }
    }

    /// Rendered to as a depth or stencil attachment.
    pub fn depth_stencil_attachment() -> (flags: ImageUsage)
        ensures
            flags.bits == 2,
    {
        ImageUsage { bits: 2 }
    }

    /// Read by copies and blits.
    pub fn transfer_src() -> (flags: ImageUsage)
        ensures
            flags.bits == 4,
    {
        ImageUsage { bits: 4 }
    }

    /// Written by copies, blits and clears.
    pub fn transfer_dst() -> (flags: ImageUsage)
        ensures
            flags.bits == 8,
    {
        ImageUsage { bits: 8 }
    }

    /// Read and written by shaders through the bindless table.
    pub fn storage() -> (flags: ImageUsage)
        ensures
            flags.bits == 16,
    {
        ImageUsage { bits: 16 }
    }

    /// Sampled by shaders through the bindless table.
    pub fn sampled() -> (flags: ImageUsage)
        ensures
            flags.bits == 32,
    {
        ImageUsage { bits: 32 }
    }

    /// The set with exactly the given bits, if each of them has a name.
    pub fn from_bits(bits: u32) -> (flags: Option<ImageUsage>)
        ensures
            flags == if bits & !Self::known_bits() == 0 {
                Some(ImageUsage { bits })
            } else {
                None
            },
    {
        if bits & !63u32 == 0 {
            Some(ImageUsage { bits })
        } else {
            None
        }
    }

    /// The set with the given bits, without those that have no name.
    pub fn from_bits_truncate(bits: u32) -> (flags: ImageUsage)
        ensures
            flags.bits == bits & Self::known_bits(),
    {
        ImageUsage { bits: bits & 63u32 }
    }

    /// Whether no bit without a name is set.
    #[verifier::when_used_as_spec(spec_is_known)]
    pub fn is_known(self) -> (known: bool)
        ensures
            known == self.spec_is_known(),
    {
        self.bits & !63u32 == 0
    }

    /// Whether no flag is set.
    pub fn is_empty(self) -> (none: bool)
        ensures
            none == (self.bits == 0),
    {
        self.bits == 0
    }

    /// Whether every flag of `other` is set in `self`.
    #[verifier::when_used_as_spec(spec_contains)]
    pub fn contains(self, other: ImageUsage) -> (held: bool)
        ensures
            held == self.spec_contains(other),
    {
        self.bits & other.bits == other.bits
    }

    /// Whether some flag is set in both.
    pub fn intersects(self, other: ImageUsage) -> (shared: bool)
        ensures
            shared == (self.bits & other.bits != 0),
    {
        self.bits & other.bits != 0
    }

    /// The flags set in either.
    pub fn union(self, other: ImageUsage) -> (flags: ImageUsage)
        ensures
            flags.bits == self.bits | other.bits,
    {
        ImageUsage { bits: self.bits | other.bits }
    }

    /// The flags set in both.
    pub fn intersection(self, other: ImageUsage) -> (flags: ImageUsage)
        ensures
            flags.bits == self.bits & other.bits,
    {
        ImageUsage { bits: self.bits & other.bits }
    }
}

/// The programmable stages a shader may run in, as a set of flags.
#[derive(Clone, Copy, Debug, PartialEq, Eq, Hash, Structural)]
pub struct ShaderStage {
    pub bits: u32,
}

impl ShaderStage {
    /// The bits of all flags that have a name.
    pub open spec fn known_bits() -> u32 {
        3
    }

    /// Whether no bit without a name is set.
    pub open spec fn spec_is_known(self) -> bool {
        self.bits & !Self::known_bits() == 0
    }

    /// Whether every flag of `other` is set in `self`.
    pub open spec fn spec_contains(self, other: ShaderStage) -> bool {
        self.bits & other.bits == other.bits
    }

    /// The set without any flag.
    pub fn empty() -> (flags: ShaderStage)
        ensures
            flags.bits == 0,
    {
        ShaderStage { bits: 0 }
    }

    /// The set of all flags that have a name.
    pub fn all() -> (flags: ShaderStage)
        ensures
            flags.bits == Self::known_bits(),
    {
        ShaderStage { bits: 3 }
    }

    /// The vertex stage.
    pub fn vertex() -> (flags: ShaderStage)
        ensures
            flags.bits == 1,
    {
        ShaderStage { bits: 1 }
    }

    /// The pixel stage.
    pub fn pixel() -> (flags: ShaderStage)
        ensures
            flags.bits == 2,
    {
        ShaderStage { bits: 2 }
    }

    /// The set with exactly the given bits, if each of them has a name.
    pub fn from_bits(bits: u32) -> (flags: Option<ShaderStage>)
        ensures
            flags == if bits & !Self::known_bits() == 0 {
                Some(ShaderStage { bits })
            } else {
                None
            },
    {
        if bits & !3u32 == 0 {
            Some(ShaderStage { bits })
        } else {
            None
        }
    }

    /// The set with the given bits, without those that have no name.
    pub fn from_bits_truncate(bits: u32) -> (flags: ShaderStage)
        ensures
            flags.bits == bits & Self::known_bits(),
    {
        ShaderStage { bits: bits & 3u32 }
    }

    /// Whether no bit without a name is set.
    #[verifier::when_used_as_spec(spec_is_known)]
    pub fn is_known(self) -> (known: bool)
        ensures
            known == self.spec_is_known(),
    {
        self.bits & !3u32 == 0
    }

    /// Whether no flag is set.
    pub fn is_empty(self) -> (none: bool)
        ensures
            none == (self.bits == 0),
    {
        self.bits == 0
    }

    /// Whether every flag of `other` is set in `self`.
    #[verifier::when_used_as_spec(spec_contains)]
    pub fn contains(self, other: ShaderStage) -> (held: bool)
        ensures
            held == self.spec_contains(other),
    {
        self.bits & other.bits == other.bits
    }

    /// Whether some flag is set in both.
    pub fn intersects(self, other: ShaderStage) -> (shared: bool)
        ensures
            shared == (self.bits & other.bits != 0),
    {
        self.bits & other.bits != 0
    }

    /// The flags set in either.
    pub fn union(self, other: ShaderStage) -> (flags: ShaderStage)
        ensures
            flags.bits == self.bits | other.bits,
    {
        ShaderStage { bits: self.bits | other.bits }
    }

    /// The flags set in both.
    pub fn intersection(self, other: ShaderStage) -> (flags: ShaderStage)
        ensures
            flags.bits == self.bits & other.bits,
    {
        ShaderStage { bits: self.bits & other.bits }
    }
}

/// The groups of device work a barrier may order, as a set of flags.
#[derive(Clone, Copy, Debug, PartialEq, Eq, Hash, Structural)]
pub struct PipelineStage {
    pub bits: u32,
}

impl PipelineStage {
    /// The bits of all flags that have a name.
    pub open spec fn known_bits() -> u32 {
        7
    }

    /// Whether no bit without a name is set.
    pub open spec fn spec_is_known(self) -> bool {
        self.bits & !Self::known_bits() == 0
    }

    /// Whether every flag of `other` is set in `self`.
    pub open spec fn spec_contains(self, other: PipelineStage) -> bool {
        self.bits & other.bits == other.bits
    }

    /// The set without any flag.
    pub fn empty() -> (flags: PipelineStage)
        ensures
            flags.bits == 0,
    {
        PipelineStage { bits: 0 }
    }

    /// The set of all flags that have a name.
    pub fn all() -> (flags: PipelineStage)
        ensures
            flags.bits == Self::known_bits(),
    {
        PipelineStage { bits: 7 }
    }

    /// Compute dispatches.
    pub fn compute() -> (flags: PipelineStage)
        ensures
            flags.bits == 1,
    {
        PipelineStage { bits: 1 }
    }

    /// Copies, blits and clears.
    pub fn transfer() -> (flags: PipelineStage)
        ensures
            flags.bits == 2,
    {
        PipelineStage { bits: 2 }
    }

    /// Draws.
    pub fn graphics() -> (flags: PipelineStage)
        ensures
            flags.bits == 4,
    {
        PipelineStage { bits: 4 }
    }

    /// The set with exactly the given bits, if each of them has a name.
    pub fn from_bits(bits: u32) -> (flags: Option<PipelineStage>)
        ensures
            flags == if bits & !Self::known_bits() == 0 {
                Some(PipelineStage { bits })
            } else {
                None
            },
    {
        if bits & !7u32 == 0 {
            Some(PipelineStage { bits })
        } else {
            None
        }
    }

    /// The set with the given bits, without those that have no name.
    pub fn from_bits_truncate(bits: u32) -> (flags: PipelineStage)
        ensures
            flags.bits == bits & Self::known_bits(),
    {
        PipelineStage { bits: bits & 7u32 }
    }

    /// Whether no bit without a name is set.
    #[verifier::when_used_as_spec(spec_is_known)]
    pub fn is_known(self) -> (known: bool)
        ensures
            known == self.spec_is_known(),
    {
        self.bits & !7u32 == 0
    }

    /// Whether no flag is set.
    pub fn is_empty(self) -> (none: bool)
        ensures
            none == (self.bits == 0),
    {
        self.bits == 0
    }

    /// Whether every flag of `other` is set in `self`.
    #[verifier::when_used_as_spec(spec_contains)]
    pub fn contains(self, other: PipelineStage) -> (held: bool)
        ensures
            held == self.spec_contains(other),
    {
        self.bits & other.bits == other.bits
    }

    /// Whether some flag is set in both.
    pub fn intersects(self, other: PipelineStage) -> (shared: bool)
        ensures
            shared == (self.bits & other.bits != 0),
    {
        self.bits & other.bits != 0
    }

    /// The flags set in either.
    pub fn union(self, other: PipelineStage) -> (flags: PipelineStage)
        ensures
            flags.bits == self.bits | other.bits,
    {
        PipelineStage { bits: self.bits | other.bits }
    }

    /// The flags set in both.
    pub fn intersection(self, other: PipelineStage) -> (flags: PipelineStage)
        ensures
            flags.bits == self.bits & other.bits,
    {
        PipelineStage { bits: self.bits & other.bits }
    }
}

} // verus!
