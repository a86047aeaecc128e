//! Core value types exchanged with the native engine: result codes, image
//! layouts, geometry helpers, flag sets, resource identifiers and their
//! owning wrappers, memory descriptors, the fixed-capacity debug-name string
//! and the embeddable optional wrapper.
//!
//! Every enumeration and flag set here mirrors a native engine definition;
//! the `code`/`code_spec` functions and the bit constants carry the engine's
//! numeric values, which must not be renumbered.

use vstd::prelude::*;

verus! {

/// Native result code for "no error"; the engine's sentinel success value.
pub const RESULT_SUCCESS: i32 = 0;

/// Native result code reported when a required engine extension is absent.
/// The engine keeps its own codes apart from the graphics API's by raising
/// bit 30; this is the first of them.
pub const RESULT_MISSING_EXTENSION: i32 = 0x4000_0000;

/// The native result codes this layer gives a name to. `Success` is the only
/// non-error code; a native code outside this enumeration is handed to
/// callers as a raw `i32` (see [`crate::device::check_result`]).
#[derive(Clone, Copy, Debug, PartialEq, Eq, Structural)]
pub enum ResultCode {
    Success,
    MissingExtension,
}

impl ResultCode {
    /// The native integer value of this code.
    pub open spec fn code_spec(self) -> i32 {
        match self {
            ResultCode::Success => RESULT_SUCCESS,
            ResultCode::MissingExtension => RESULT_MISSING_EXTENSION,
        }
    }

    pub fn code(self) -> (r: i32)
        ensures
            r == self.code_spec(),
    {
        match self {
            ResultCode::Success => RESULT_SUCCESS,
            ResultCode::MissingExtension => RESULT_MISSING_EXTENSION,
        }
    }

    /// The named code with the given native value, if there is one.
    pub open spec fn from_code_spec(code: i32) -> Option<ResultCode> {
        if code == RESULT_SUCCESS {
            Some(ResultCode::Success)
        } else if code == RESULT_MISSING_EXTENSION {
            Some(ResultCode::MissingExtension)
        } else {
            None
        }
    }

    pub fn from_code(code: i32) -> (r: Option<ResultCode>)
        ensures
            r == Self::from_code_spec(code),
    {
        if code == RESULT_SUCCESS {
            Some(ResultCode::Success)
        } else if code == RESULT_MISSING_EXTENSION {
            Some(ResultCode::MissingExtension)
        } else {
            None
        }
    }
}

/// Round trip: every named result code is recovered from its native value.
pub proof fn lemma_result_code_roundtrip(c: ResultCode)
    ensures
        ResultCode::from_code_spec(c.code_spec()) == Some(c),
{
}

/// The layout an image's memory is kept in, mirroring the engine's layout enumeration.
#[derive(Clone, Copy, Debug, PartialEq, Eq, Structural)]
pub enum ImageLayout {
    Undefined,
    General,
    TransferSrcOptimal,
    TransferDstOptimal,
    ReadOnlyOptimal,
    AttachmentOptimal,
    PresentSrc,
}

impl ImageLayout {
    /// The native engine's integer value for this variant.
    pub open spec fn code_spec(self) -> u32 {
        match self {
            ImageLayout::Undefined => 0,
            ImageLayout::General => 1,
            ImageLayout::TransferSrcOptimal => 6,
            ImageLayout::TransferDstOptimal => 7,
            ImageLayout::ReadOnlyOptimal => 1000314000,
            ImageLayout::AttachmentOptimal => 1000314001,
            ImageLayout::PresentSrc => 1000001002,
        }
    }

    /// Translate this variant to the native engine's integer value.
    pub fn code(self) -> (r: u32)
        ensures
            r == self.code_spec(),
    {
        match self {
            ImageLayout::Undefined => 0,
            ImageLayout::General => 1,
            ImageLayout::TransferSrcOptimal => 6,
            ImageLayout::TransferDstOptimal => 7,
            ImageLayout::ReadOnlyOptimal => 1000314000,
            ImageLayout::AttachmentOptimal => 1000314001,
            ImageLayout::PresentSrc => 1000001002,
        }
    }
}

/// A two-component vector, laid out one component after the other.
#[derive(Clone, Copy, Debug, PartialEq, Eq, Structural)]
pub struct Vec2<T> {
    pub x: T,
    pub y: T,
}

/// A three-component vector, laid out one component after the other.
#[derive(Clone, Copy, Debug, PartialEq, Eq, Structural)]
pub struct Vec3<T> {
    pub x: T,
    pub y: T,
    pub z: T,
}

/// A four-component vector, laid out one component after the other.
#[derive(Clone, Copy, Debug, PartialEq, Eq, Structural)]
pub struct Vec4<T> {
    pub x: T,
    pub y: T,
    pub z: T,
    pub w: T,
}

/// A contiguous range of mip levels and array layers within an image.
#[derive(Clone, Copy, Debug, PartialEq, Eq, Structural)]
pub struct ImageMipArraySlice {
    pub base_mip_level: u32,
    pub level_count: u32,
    pub base_array_layer: u32,
    pub layer_count: u32,
}

/// One mip level across a contiguous range of array layers.
#[derive(Clone, Copy, Debug, PartialEq, Eq, Structural)]
pub struct ImageArraySlice {
    pub mip_level: u32,
    pub base_array_layer: u32,
    pub layer_count: u32,
}

/// A single mip level of a single array layer.
#[derive(Clone, Copy, Debug, PartialEq, Eq, Structural)]
pub struct ImageSlice {
    pub mip_level: u32,
    pub array_layer: u32,
}

pub const PIPELINE_STAGE_TOP_OF_PIPE_BIT: u64 = 0x1;

pub const PIPELINE_STAGE_DRAW_INDIRECT_BIT: u64 = 0x2;

pub const PIPELINE_STAGE_VERTEX_INPUT_BIT: u64 = 0x4;

pub const PIPELINE_STAGE_VERTEX_SHADER_BIT: u64 = 0x8;

pub const PIPELINE_STAGE_TESSELLATION_CONTROL_SHADER_BIT: u64 = 0x10;

pub const PIPELINE_STAGE_TESSELLATION_EVALUATION_SHADER_BIT: u64 = 0x20;

pub const PIPELINE_STAGE_GEOMETRY_SHADER_BIT: u64 = 0x40;

pub const PIPELINE_STAGE_FRAGMENT_SHADER_BIT: u64 = 0x80;

pub const PIPELINE_STAGE_EARLY_FRAGMENT_TESTS_BIT: u64 = 0x100;

pub const PIPELINE_STAGE_LATE_FRAGMENT_TESTS_BIT: u64 = 0x200;

pub const PIPELINE_STAGE_COLOR_ATTACHMENT_OUTPUT_BIT: u64 = 0x400;

pub const PIPELINE_STAGE_COMPUTE_SHADER_BIT: u64 = 0x800;

pub const PIPELINE_STAGE_TRANSFER_BIT: u64 = 0x1000;

pub const PIPELINE_STAGE_BOTTOM_OF_PIPE_BIT: u64 = 0x2000;

pub const PIPELINE_STAGE_HOST_BIT: u64 = 0x4000;

pub const PIPELINE_STAGE_ALL_GRAPHICS_BIT: u64 = 0x8000;

pub const PIPELINE_STAGE_ALL_COMMANDS_BIT: u64 = 0x10000;

pub const PIPELINE_STAGE_NONE: u64 = 0x0;

pub const PIPELINE_STAGE_TRANSFORM_FEEDBACK_BIT_EXT: u64 = 0x100_0000;

pub const PIPELINE_STAGE_CONDITIONAL_RENDERING_BIT_EXT: u64 = 0x4_0000;

pub const PIPELINE_STAGE_ACCELERATION_STRUCTURE_BUILD_BIT_KHR: u64 = 0x200_0000;

pub const PIPELINE_STAGE_RAY_TRACING_SHADER_BIT_KHR: u64 = 0x20_0000;

pub const PIPELINE_STAGE_FRAGMENT_DENSITY_PROCESS_BIT_EXT: u64 = 0x80_0000;

pub const PIPELINE_STAGE_FRAGMENT_SHADING_RATE_ATTACHMENT_BIT_KHR: u64 = 0x40_0000;

pub const PIPELINE_STAGE_COMMAND_PREPROCESS_BIT_NV: u64 = 0x2_0000;

pub const PIPELINE_STAGE_TASK_SHADER_BIT_EXT: u64 = 0x8_0000;

pub const PIPELINE_STAGE_MESH_SHADER_BIT_EXT: u64 = 0x10_0000;

/// Alias kept by the graphics API for the shading-rate-attachment bit.
pub const PIPELINE_STAGE_SHADING_RATE_IMAGE_BIT_NV: u64 = 0x40_0000;

/// Alias kept by the graphics API for the ray-tracing-shader bit.
pub const PIPELINE_STAGE_RAY_TRACING_SHADER_BIT_NV: u64 = 0x20_0000;

/// Alias kept by the graphics API for the acceleration-structure-build bit.
pub const PIPELINE_STAGE_ACCELERATION_STRUCTURE_BUILD_BIT_NV: u64 = 0x200_0000;

/// Alias kept by the graphics API for the task-shader bit.
pub const PIPELINE_STAGE_TASK_SHADER_BIT_NV: u64 = 0x8_0000;

/// Alias kept by the graphics API for the mesh-shader bit.
pub const PIPELINE_STAGE_MESH_SHADER_BIT_NV: u64 = 0x10_0000;

/// Alias kept by the graphics API for the empty stage set.
pub const PIPELINE_STAGE_NONE_KHR: u64 = 0x0;

/// Pipeline stages a synchronization scope may name; one bit per stage.
#[derive(Clone, Copy, Debug, PartialEq, Eq, Structural)]
pub struct PipelineStageFlags {
    pub bits: u64,
}

impl PipelineStageFlags {
    /// The set with no bits raised.
    pub fn empty() -> (r: PipelineStageFlags)
        ensures
            r.bits == 0,
    {
        PipelineStageFlags { bits: 0 }
    }

    /// The set holding exactly the given bits.
    pub fn from_bits(bits: u64) -> (r: PipelineStageFlags)
        ensures
            r.bits == bits,
    {
        PipelineStageFlags { bits }
    }

    /// Raise every bit that is raised in either set.
    pub fn union(self, other: PipelineStageFlags) -> (r: PipelineStageFlags)
        ensures
            r.bits == self.bits | other.bits,
    {
        PipelineStageFlags { bits: self.bits | other.bits }
    }

    /// Keep only the bits raised in both sets.
    pub fn intersection(self, other: PipelineStageFlags) -> (r: PipelineStageFlags)
        ensures
            r.bits == self.bits & other.bits,
    {
        PipelineStageFlags { bits: self.bits & other.bits }
    }

    /// Whether every bit of `other` is raised in `self`.
    pub fn contains(self, other: PipelineStageFlags) -> (r: bool)
        ensures
            r == (self.bits & other.bits == other.bits),
    {
        self.bits & other.bits == other.bits
    }
}

impl Default for PipelineStageFlags {
    /// The default stage set raises no bits.
    fn default() -> (r: PipelineStageFlags)
        ensures
            r.bits == 0,
    {
        PipelineStageFlags { bits: 0 }
    }
}

/// The dimensionality an image view presents its image with.
#[derive(Clone, Copy, Debug, PartialEq, Eq, Structural)]
pub enum ImageViewType {
    OneDim,
    TwoDim,
    ThreeDim,
    Cube,
    OneDimArray,
    TwoDimArray,
    CubeArray,
}

impl ImageViewType {
    /// The native engine's integer value for this variant.
    pub open spec fn code_spec(self) -> u32 {
        match self {
            ImageViewType::OneDim => 0,
            ImageViewType::TwoDim => 1,
            ImageViewType::ThreeDim => 2,
            ImageViewType::Cube => 3,
            ImageViewType::OneDimArray => 4,
            ImageViewType::TwoDimArray => 5,
            ImageViewType::CubeArray => 6,
        }
    }

    /// Translate this variant to the native engine's integer value.
    pub fn code(self) -> (r: u32)
        ensures
            r == self.code_spec(),
    {
        match self {
            ImageViewType::OneDim => 0,
            ImageViewType::TwoDim => 1,
            ImageViewType::ThreeDim => 2,
            ImageViewType::Cube => 3,
            ImageViewType::OneDimArray => 4,
            ImageViewType::TwoDimArray => 5,
            ImageViewType::CubeArray => 6,
        }
    }
}

/// The sampling filter applied when an image is read between texels.
#[derive(Clone, Copy, Debug, PartialEq, Eq, Structural)]
pub enum Filter {
    Nearest,
    Linear,
    CubicExt,
    /// The graphics API aliases the vendor name to the same value as `CubicExt`.
    CubicImg,
}

impl Filter {
    /// The native engine's integer value for this variant.
    pub open spec fn code_spec(self) -> u32 {
        match self {
            Filter::Nearest => 0,
            Filter::Linear => 1,
            Filter::CubicExt => 1000015000,
            Filter::CubicImg => 1000015000,
        }
    }

    /// Translate this variant to the native engine's integer value.
    pub fn code(self) -> (r: u32)
        ensures
            r == self.code_spec(),
    {
        match self {
            Filter::Nearest => 0,
            Filter::Linear => 1,
            Filter::CubicExt => 1000015000,
            Filter::CubicImg => 1000015000,
        }
    }
}
pub const IMAGE_CREATE_SPARSE_BINDING: u32 = 0x1;

pub const IMAGE_CREATE_SPARSE_RESIDENCY: u32 = 0x2;

pub const IMAGE_CREATE_SPARSE_ALIASED: u32 = 0x4;

pub const IMAGE_CREATE_MUTABLE_FORMAT: u32 = 0x8;

pub const IMAGE_CREATE_CUBE_COMPATIBLE: u32 = 0x10;

pub const IMAGE_CREATE_ALIAS: u32 = 0x400;

pub const IMAGE_CREATE_SPLIT_INSTANCE_BIND_REGIONS: u32 = 0x40;

pub const IMAGE_CREATE_TWO_DIM_ARRAY_COMPATIBLE_BIT: u32 = 0x20;

pub const IMAGE_CREATE_BLOCK_TEXEL_VIEW_COMPATIBLE: u32 = 0x80;

pub const IMAGE_CREATE_EXTENDED_USAGE: u32 = 0x100;

pub const IMAGE_CREATE_PROTECTED: u32 = 0x800;

pub const IMAGE_CREATE_DISJOINT: u32 = 0x200;

pub const IMAGE_CREATE_CORNER_SAMPLED: u32 = 0x2000;

pub const IMAGE_CREATE_SAMPLE_LOCATIONS_COMPATIBLE_DEPTH_BIT: u32 = 0x1000;

pub const IMAGE_CREATE_SUBSAMPLED: u32 = 0x4000;

pub const IMAGE_CREATE_DESCRIPTOR_BUFFER_CAPTURE_REPLAY: u32 = 0x1_0000;

pub const IMAGE_CREATE_MULTISAMPLED_RENDER_TO_SINGLE_SAMPLED: u32 = 0x4_0000;

pub const IMAGE_CREATE_TWO_DIM_VIEW_COMPATIBLE: u32 = 0x2_0000;

pub const IMAGE_CREATE_FRAGMENT_DENSITY_MAP_OFFSET: u32 = 0x8000;

/// Creation-time capabilities requested for an image; one bit per capability.
#[derive(Clone, Copy, Debug, PartialEq, Eq, Structural)]
pub struct ImageCreateFlags {
    pub bits: u32,
}

impl ImageCreateFlags {
    /// The set with no bits raised.
    pub fn empty() -> (r: ImageCreateFlags)
        ensures
            r.bits == 0,
    {
        ImageCreateFlags { bits: 0 }
    }

    /// The set holding exactly the given bits.
    pub fn from_bits(bits: u32) -> (r: ImageCreateFlags)
        ensures
            r.bits == bits,
    {
        ImageCreateFlags { bits }
    }

    /// Raise every bit that is raised in either set.
    pub fn union(self, other: ImageCreateFlags) -> (r: ImageCreateFlags)
        ensures
            r.bits == self.bits | other.bits,
    {
        ImageCreateFlags { bits: self.bits | other.bits }
    }

    /// Keep only the bits raised in both sets.
    pub fn intersection(self, other: ImageCreateFlags) -> (r: ImageCreateFlags)
        ensures
            r.bits == self.bits & other.bits,
    {
        ImageCreateFlags { bits: self.bits & other.bits }
    }

    /// Whether every bit of `other` is raised in `self`.
    pub fn contains(self, other: ImageCreateFlags) -> (r: bool)
        ensures
            r == (self.bits & other.bits == other.bits),
    {
        self.bits & other.bits == other.bits
    }
}
pub const IMAGE_USAGE_TRANSFER_SRC: u32 = 0x1;

pub const IMAGE_USAGE_TRANSFER_DST: u32 = 0x2;

pub const IMAGE_USAGE_SAMPLED: u32 = 0x4;

pub const IMAGE_USAGE_STORAGE: u32 = 0x8;

pub const IMAGE_USAGE_COLOR_ATTACHMENT: u32 = 0x10;

pub const IMAGE_USAGE_DEPTH_STENCIL_ATTACHMENT: u32 = 0x20;

pub const IMAGE_USAGE_TRANSIENT_ATTACHMENT: u32 = 0x40;

pub const IMAGE_USAGE_VIDEO_DECODE_DST: u32 = 0x400;

pub const IMAGE_USAGE_VIDEO_DECODE_SRC: u32 = 0x800;

pub const IMAGE_USAGE_VIDEO_DECODE_DPB: u32 = 0x1000;

pub const IMAGE_USAGE_FRAGMENT_DENSITY_MAP: u32 = 0x200;

pub const IMAGE_USAGE_FRAGMENT_SHADING_RATE_ATTACHMENT: u32 = 0x100;

pub const IMAGE_USAGE_HOST_TRANSFER: u32 = 0x40_0000;

pub const IMAGE_USAGE_INVOCATION_MASK: u32 = 0x4_0000;

pub const IMAGE_USAGE_SAMPLE_WEIGHT: u32 = 0x10_0000;

pub const IMAGE_USAGE_SAMPLE_BLOCK_MATCH: u32 = 0x20_0000;

/// The ways an image may be used; one bit per usage.
#[derive(Clone, Copy, Debug, PartialEq, Eq, Structural)]
pub struct ImageUsageFlags {
    pub bits: u32,
}

impl ImageUsageFlags {
    /// The set with no bits raised.
    pub fn empty() -> (r: ImageUsageFlags)
        ensures
            r.bits == 0,
    {
        ImageUsageFlags { bits: 0 }
    }

    /// The set holding exactly the given bits.
    pub fn from_bits(bits: u32) -> (r: ImageUsageFlags)
        ensures
            r.bits == bits,
    {
        ImageUsageFlags { bits }
    }

    /// Raise every bit that is raised in either set.
    pub fn union(self, other: ImageUsageFlags) -> (r: ImageUsageFlags)
        ensures
            r.bits == self.bits | other.bits,
    {
        ImageUsageFlags { bits: self.bits | other.bits }
    }

    /// Keep only the bits raised in both sets.
    pub fn intersection(self, other: ImageUsageFlags) -> (r: ImageUsageFlags)
        ensures
            r.bits == self.bits & other.bits,
    {
        ImageUsageFlags { bits: self.bits & other.bits }
    }

    /// Whether every bit of `other` is raised in `self`.
    pub fn contains(self, other: ImageUsageFlags) -> (r: bool)
        ensures
            r == (self.bits & other.bits == other.bits),
    {
        self.bits & other.bits == other.bits
    }
}

/// How sampling coordinates outside an image are folded back in.
#[derive(Clone, Copy, Debug, PartialEq, Eq, Structural)]
pub enum SamplerAddressMode {
    Repeat,
    MirroredRepeat,
    ClampToEdge,
    ClampToBorder,
    MirroredClampToBorder,
}

impl SamplerAddressMode {
    /// The native engine's integer value for this variant.
    pub open spec fn code_spec(self) -> u32 {
        match self {
            SamplerAddressMode::Repeat => 0,
            SamplerAddressMode::MirroredRepeat => 1,
            SamplerAddressMode::ClampToEdge => 2,
            SamplerAddressMode::ClampToBorder => 3,
            SamplerAddressMode::MirroredClampToBorder => 4,
        }
    }

    /// Translate this variant to the native engine's integer value.
    pub fn code(self) -> (r: u32)
        ensures
            r == self.code_spec(),
    {
        match self {
            SamplerAddressMode::Repeat => 0,
            SamplerAddressMode::MirroredRepeat => 1,
            SamplerAddressMode::ClampToEdge => 2,
            SamplerAddressMode::ClampToBorder => 3,
            SamplerAddressMode::MirroredClampToBorder => 4,
        }
    }
}

/// How a sampler combines the texels it gathers.
#[derive(Clone, Copy, Debug, PartialEq, Eq, Structural)]
pub enum ReductionMode {
    WeightedAverage,
    Min,
    Max,
}

impl ReductionMode {
    /// The native engine's integer value for this variant.
    pub open spec fn code_spec(self) -> u32 {
        match self {
            ReductionMode::WeightedAverage => 0,
            ReductionMode::Min => 1,
            ReductionMode::Max => 2,
        }
    }

    /// Translate this variant to the native engine's integer value.
    pub fn code(self) -> (r: u32)
        ensures
            r == self.code_spec(),
    {
        match self {
            ReductionMode::WeightedAverage => 0,
            ReductionMode::Min => 1,
            ReductionMode::Max => 2,
        }
    }
}

/// The color sampled beyond an image border under clamp-to-border addressing.
#[derive(Clone, Copy, Debug, PartialEq, Eq, Structural)]
pub enum BorderColor {
    FloatTransparentBlack,
    IntTransparentBlack,
    FloatOpaqueBlack,
    IntOpaqueBlack,
    FloatOpaqueWhite,
    IntOpaqueWhite,
}

impl BorderColor {
    /// The native engine's integer value for this variant.
    pub open spec fn code_spec(self) -> u32 {
        match self {
            BorderColor::FloatTransparentBlack => 0,
            BorderColor::IntTransparentBlack => 1,
            BorderColor::FloatOpaqueBlack => 2,
            BorderColor::IntOpaqueBlack => 3,
            BorderColor::FloatOpaqueWhite => 4,
            BorderColor::IntOpaqueWhite => 5,
        }
    }

    /// Translate this variant to the native engine's integer value.
    pub fn code(self) -> (r: u32)
        ensures
            r == self.code_spec(),
    {
        match self {
            BorderColor::FloatTransparentBlack => 0,
            BorderColor::IntTransparentBlack => 1,
            BorderColor::FloatOpaqueBlack => 2,
            BorderColor::IntOpaqueBlack => 3,
            BorderColor::FloatOpaqueWhite => 4,
            BorderColor::IntOpaqueWhite => 5,
        }
    }
}

/// The comparison a depth test or compare-enabled sampler applies.
#[derive(Clone, Copy, Debug, PartialEq, Eq, Structural)]
pub enum CompareOp {
    Never,
    Less,
    Equal,
    LessOrEqual,
    Greater,
    NotEqual,
    GreaterOrEqual,
    Always,
}

impl CompareOp {
    /// The native engine's integer value for this variant.
    pub open spec fn code_spec(self) -> u32 {
        match self {
            CompareOp::Never => 0,
            CompareOp::Less => 1,
            CompareOp::Equal => 2,
            CompareOp::LessOrEqual => 3,
            CompareOp::Greater => 4,
            CompareOp::NotEqual => 5,
            CompareOp::GreaterOrEqual => 6,
            CompareOp::Always => 7,
        }
    }

    /// Translate this variant to the native engine's integer value.
    pub fn code(self) -> (r: u32)
        ensures
            r == self.code_spec(),
    {
        match self {
            CompareOp::Never => 0,
            CompareOp::Less => 1,
            CompareOp::Equal => 2,
            CompareOp::LessOrEqual => 3,
            CompareOp::Greater => 4,
            CompareOp::NotEqual => 5,
            CompareOp::GreaterOrEqual => 6,
            CompareOp::Always => 7,
        }
    }
}

/// The dimensions of an image: one, two, or three unsigned extents.
#[derive(Clone, Copy, Debug, PartialEq, Eq, Structural)]
pub enum Extent {
    OneDim(u32),
    TwoDim(u32, u32),
    ThreeDim(u32, u32, u32),
}

impl Extent {
    /// How many dimensions this extent names.
    pub open spec fn dimensions_spec(self) -> u32 {
        match self {
            Extent::OneDim(_) => 1,
            Extent::TwoDim(_, _) => 2,
            Extent::ThreeDim(_, _, _) => 3,
        }
    }

    /// How many dimensions this extent names: one, two, or three.
    pub fn dimensions(&self) -> (r: u32)
        ensures
            r == self.dimensions_spec(),
    {
        match self {
            Extent::OneDim(_) => 1,
            Extent::TwoDim(_, _) => 2,
            Extent::ThreeDim(_, _, _) => 3,
        }
    }

    /// The extent in the engine's three-entry layout: the named dimensions
    /// in order, and one for each dimension beyond them (a two-dimensional
    /// image is one texel deep).
    pub fn size_array(&self) -> (r: [u32; 3])
        ensures
            self matches Extent::OneDim(w) ==> r@ == seq![*w, 1u32, 1u32],
            self matches Extent::TwoDim(w, h) ==> r@ == seq![*w, *h, 1u32],
            self matches Extent::ThreeDim(w, h, d) ==> r@ == seq![*w, *h, *d],
    {
        let r = match self {
            Extent::OneDim(w) => [*w, 1, 1],
            Extent::TwoDim(w, h) => [*w, *h, 1],
            Extent::ThreeDim(w, h, d) => [*w, *h, *d],
        };
        proof {
            match self {
                Extent::OneDim(w) => assert(r@ =~= seq![*w, 1u32, 1u32]),
                Extent::TwoDim(w, h) => assert(r@ =~= seq![*w, *h, 1u32]),
                Extent::ThreeDim(w, h, d) => assert(r@ =~= seq![*w, *h, *d]),
            }
        }
        r
    }
}

/// An unsigned byte size or offset in device memory.
pub type DeviceSize = u64;

/// A GPU-visible address of buffer memory.
pub type BufferDeviceAddress = u64;

/// Raw bit pattern of a single-precision IEEE-754 value. The engine's
/// descriptors carry such values; this layer moves them as bits and leaves
/// their arithmetic to the engine.
pub type F32Bits = u32;

/// The bit pattern of single-precision 0.0.
pub const F32_BITS_ZERO: u32 = 0x0000_0000;

/// The bit pattern of single-precision 1.0.
pub const F32_BITS_ONE: u32 = 0x3f80_0000;

/// Identifier of a buffer inside one device's resource table: a slot index
/// tagged with the generation under which the slot was handed out, so a
/// recycled slot never revalidates a stale identifier.
#[derive(Clone, Copy, Debug, PartialEq, Eq, Structural)]
pub struct BufferId {
    pub index: u32,
    pub version: u64,
}

/// Identifier of an image inside one device's resource table; see [`BufferId`].
#[derive(Clone, Copy, Debug, PartialEq, Eq, Structural)]
pub struct ImageId {
    pub index: u32,
    pub version: u64,
}

/// Identifier of an image view inside one device's resource table; see [`BufferId`].
#[derive(Clone, Copy, Debug, PartialEq, Eq, Structural)]
pub struct ImageViewId {
    pub index: u32,
    pub version: u64,
}

/// Identifier of a sampler inside one device's resource table; see [`BufferId`].
#[derive(Clone, Copy, Debug, PartialEq, Eq, Structural)]
pub struct SamplerId {
    pub index: u32,
    pub version: u64,
}

/// Owning wrapper around the opaque native handle of a memory block.
#[derive(Clone, Copy, Debug, PartialEq, Eq, Structural)]
pub struct MemoryBlock {
    pub handle: u64,
}

impl MemoryBlock {
    /// The raw handle value this wrapper owns.
    pub open spec fn id_spec(self) -> u64 {
        self.handle
    }

    pub fn id(&self) -> (r: u64)
        ensures
            r == self.id_spec(),
    {
        self.handle
    }
}

/// Owning wrapper around a created image's identifier.
#[derive(Clone, Copy, Debug, PartialEq, Eq, Structural)]
pub struct Image {
    pub id: ImageId,
}

impl Image {
    /// The identifier this wrapper owns.
    pub open spec fn id_spec(self) -> ImageId {
        self.id
    }

    pub fn id(&self) -> (r: ImageId)
        ensures
            r == self.id_spec(),
    {
        self.id
    }
}

/// Owning wrapper around a created imageview's identifier.
#[derive(Clone, Copy, Debug, PartialEq, Eq, Structural)]
pub struct ImageView {
    pub id: ImageViewId,
}

impl ImageView {
    /// The identifier this wrapper owns.
    pub open spec fn id_spec(self) -> ImageViewId {
        self.id
    }

    pub fn id(&self) -> (r: ImageViewId)
        ensures
            r == self.id_spec(),
    {
        self.id
    }
}

/// Owning wrapper around a created buffer's identifier.
#[derive(Clone, Copy, Debug, PartialEq, Eq, Structural)]
pub struct Buffer {
    pub id: BufferId,
}

impl Buffer {
    /// The identifier this wrapper owns.
    pub open spec fn id_spec(self) -> BufferId {
        self.id
    }

    pub fn id(&self) -> (r: BufferId)
        ensures
            r == self.id_spec(),
    {
        self.id
    }
}

/// Owning wrapper around a created sampler's identifier.
#[derive(Clone, Copy, Debug, PartialEq, Eq, Structural)]
pub struct Sampler {
    pub id: SamplerId,
}

impl Sampler {
    /// The identifier this wrapper owns.
    pub open spec fn id_spec(self) -> SamplerId {
        self.id
    }

    pub fn id(&self) -> (r: SamplerId)
        ensures
            r == self.id_spec(),
    {
        self.id
    }
}

/// Owning wrapper around the opaque native handle of a rasterization pipeline.
#[derive(Clone, Copy, Debug, PartialEq, Eq, Structural)]
pub struct RasterPipeline {
    pub handle: u64,
}

impl RasterPipeline {
    /// The raw handle value this wrapper owns.
    pub open spec fn id_spec(self) -> u64 {
        self.handle
    }

    pub fn id(&self) -> (r: u64)
        ensures
            r == self.id_spec(),
    {
        self.handle
    }
}

/// Owning wrapper around the opaque native handle of a compute pipeline.
#[derive(Clone, Copy, Debug, PartialEq, Eq, Structural)]
pub struct ComputePipeline {
    pub handle: u64,
}

impl ComputePipeline {
    /// The raw handle value this wrapper owns.
    pub open spec fn id_spec(self) -> u64 {
        self.handle
    }

    pub fn id(&self) -> (r: u64)
        ensures
            r == self.id_spec(),
    {
        self.handle
    }
}

/// Owning wrapper around the opaque native handle of a swapchain.
#[derive(Clone, Copy, Debug, PartialEq, Eq, Structural)]
pub struct Swapchain {
    pub handle: u64,
}

impl Swapchain {
    /// The raw handle value this wrapper owns.
    pub open spec fn id_spec(self) -> u64 {
        self.handle
    }

    pub fn id(&self) -> (r: u64)
        ensures
            r == self.id_spec(),
    {
        self.handle
    }
}

/// Owning wrapper around the opaque native handle of a binary semaphore.
#[derive(Clone, Copy, Debug, PartialEq, Eq, Structural)]
pub struct BinarySemaphore {
    pub handle: u64,
}

impl BinarySemaphore {
    /// The raw handle value this wrapper owns.
    pub open spec fn id_spec(self) -> u64 {
        self.handle
    }

    pub fn id(&self) -> (r: u64)
        ensures
            r == self.id_spec(),
    {
        self.handle
    }
}

/// Owning wrapper around the opaque native handle of a timeline semaphore.
#[derive(Clone, Copy, Debug, PartialEq, Eq, Structural)]
pub struct TimelineSemaphore {
    pub handle: u64,
}

impl TimelineSemaphore {
    /// The raw handle value this wrapper owns.
    pub open spec fn id_spec(self) -> u64 {
        self.handle
    }

    pub fn id(&self) -> (r: u64)
        ensures
            r == self.id_spec(),
    {
        self.handle
    }
}

/// Owning wrapper around the opaque native handle of an event.
#[derive(Clone, Copy, Debug, PartialEq, Eq, Structural)]
pub struct Event {
    pub handle: u64,
}

impl Event {
    /// The raw handle value this wrapper owns.
    pub open spec fn id_spec(self) -> u64 {
        self.handle
    }

    pub fn id(&self) -> (r: u64)
        ensures
            r == self.id_spec(),
    {
        self.handle
    }
}

/// Owning wrapper around the opaque native handle of a timeline query pool.
#[derive(Clone, Copy, Debug, PartialEq, Eq, Structural)]
pub struct TimelineQueryPool {
    pub handle: u64,
}

impl TimelineQueryPool {
    /// The raw handle value this wrapper owns.
    pub open spec fn id_spec(self) -> u64 {
        self.handle
    }

    pub fn id(&self) -> (r: u64)
        ensures
            r == self.id_spec(),
    {
        self.handle
    }
}

pub const MEMORY_FLAG_DEDICATED_MEMORY: u32 = 0x1;

pub const MEMORY_FLAG_CAN_ALIAS: u32 = 0x200;

pub const MEMORY_FLAG_SEQUENTIAL_WRITE: u32 = 0x400;

pub const MEMORY_FLAG_HOST_ACCESS_RANDOM: u32 = 0x800;

pub const MEMORY_FLAG_MIN_MEMORY: u32 = 0x1_0000;

pub const MEMORY_FLAG_MIN_TIME: u32 = 0x2_0000;

/// Allocation strategy and host-access requests for a memory allocation;
/// one bit per request, with the engine's allocator bit values.
#[derive(Clone, Copy, Debug, PartialEq, Eq, Structural)]
pub struct MemoryFlags {
    pub bits: u32,
}

impl MemoryFlags {
    /// The set with no bits raised.
    pub fn empty() -> (r: MemoryFlags)
        ensures
            r.bits == 0,
    {
        MemoryFlags { bits: 0 }
    }

    /// The set holding exactly the given bits.
    pub fn from_bits(bits: u32) -> (r: MemoryFlags)
        ensures
            r.bits == bits,
    {
        MemoryFlags { bits }
    }

    /// Raise every bit that is raised in either set.
    pub fn union(self, other: MemoryFlags) -> (r: MemoryFlags)
        ensures
            r.bits == self.bits | other.bits,
    {
        MemoryFlags { bits: self.bits | other.bits }
    }

    /// Keep only the bits raised in both sets.
    pub fn intersection(self, other: MemoryFlags) -> (r: MemoryFlags)
        ensures
            r.bits == self.bits & other.bits,
    {
        MemoryFlags { bits: self.bits & other.bits }
    }

    /// Whether every bit of `other` is raised in `self`.
    pub fn contains(self, other: MemoryFlags) -> (r: bool)
        ensures
            r == (self.bits & other.bits == other.bits),
    {
        self.bits & other.bits == other.bits
    }
}

impl Default for MemoryFlags {
    /// The default allocation raises no request bits.
    fn default() -> (r: MemoryFlags)
        ensures
            r.bits == 0,
    {
        MemoryFlags { bits: 0 }
    }
}

/// Size, alignment, and the compatible memory types of a prospective
/// resource allocation, as the engine reports them.
#[derive(Clone, Copy, Debug, PartialEq, Eq, Structural)]
pub struct MemoryRequirements {
    pub size: DeviceSize,
    pub alignment: DeviceSize,
    pub memory_type_bits: u32,
}

/// Creation descriptor for a standalone memory block.
#[derive(Clone, Copy, Debug, PartialEq, Eq, Structural)]
pub struct MemoryBlockInfo {
    pub requirements: MemoryRequirements,
    pub flags: MemoryFlags,
}

/// Placement of a resource at a byte offset inside an existing memory block.
#[derive(Clone, Copy, Debug, PartialEq, Eq, Structural)]
pub struct ManualAllocInfo {
    pub memory_block: MemoryBlockInfo,
    pub offset: usize,
}

/// Either let the engine allocate with the given flags, or place the
/// resource manually inside an existing block.
#[derive(Clone, Copy, Debug, PartialEq, Eq, Structural)]
pub enum AllocInfo {
    Auto(MemoryFlags),
    Manual(ManualAllocInfo),
}

/// A memory-type index paired with how the allocation should be made.
#[derive(Clone, Copy, Debug, PartialEq, Eq, Structural)]
pub struct MemoryAllocateInfo {
    pub index: u64,
    pub info: AllocInfo,
}

/// A string of at most `N - 1` bytes kept inline in an `N`-byte buffer, as
/// the engine embeds debug names in its descriptors. The content length is
/// strictly less than the capacity, leaving room for a terminating zero.
#[derive(Clone, Copy, Debug)]
pub struct FixedString<const N: usize> {
    data: [u8; N],
    len: u8,
}

impl<const N: usize> FixedString<N> {
    /// The content lies strictly inside the capacity.
    pub closed spec fn wf(self) -> bool {
        (self.len as nat) < N
    }

    /// The bytes of the content, in order.
    pub closed spec fn view(self) -> Seq<u8> {
        self.data@.take(self.len as int)
    }

    /// Build an inline string from the given bytes. Succeeds exactly when
    /// the byte sequence is strictly shorter than the capacity, and then
    /// preserves the bytes and their order; longer input is refused.
    pub fn from_bytes(bytes: &[u8]) -> (r: Option<FixedString<N>>)
        requires
            N <= 256,
        ensures
            match r {
                Some(s) => s.wf() && s@ == bytes@ && bytes@.len() < N,
                None => bytes@.len() >= N,
            },
    {
        if bytes.len() >= N {
            return None;
        }
        let mut data = [0u8; N];
        let mut i: usize = 0;
        while i < bytes.len()
            invariant
                i <= bytes@.len(),
                bytes@.len() < N,
                data@.len() == N,
                forall|j: int| 0 <= j < i ==> data@[j] == bytes@[j],
            decreases bytes@.len() - i,
        {
            data[i] = bytes[i];
            i += 1;
        }
        let r = FixedString { data, len: bytes.len() as u8 };
        proof {
            assert(r@ =~= bytes@);
        }
        Some(r)
    }

    /// Build an inline string from a zero-terminated byte buffer: the
    /// content runs up to the first zero byte, or over the whole buffer
    /// when no zero occurs. Fails exactly when that content does not fit:
    /// when the first `N` bytes exist and none of them is zero.
    pub fn from_bytes_null_terminated(bytes: &[u8]) -> (r: Option<FixedString<N>>)
        requires
            N <= 256,
        ensures
            match r {
                Some(s) => {
                    &&& s.wf()
                    &&& s@ == bytes@.take(s@.len() as int)
                    &&& s@.len() < N
                    &&& forall|j: int| 0 <= j < s@.len() ==> bytes@[j] != 0
                    &&& s@.len() < bytes@.len() ==> bytes@[s@.len() as int] == 0
                },
                None => bytes@.len() >= N && forall|j: int| 0 <= j < N ==> bytes@[j] != 0,
            },
    {
        let mut end: usize = 0;
        while end < bytes.len() && bytes[end] != 0
            invariant
                end <= bytes@.len(),
                forall|j: int| 0 <= j < end ==> bytes@[j] != 0,
            decreases bytes@.len() - end,
        {
            end += 1;
        }
        let prefix = &bytes[0..end];
        assert(prefix@ =~= bytes@.take(end as int));
        let r = Self::from_bytes(prefix);
        match r {
            Some(s) => Some(s),
            None => None,
        }
    }

    /// The number of content bytes.
    pub fn len(&self) -> (r: usize)
        requires
            self.wf(),
        ensures
            r == self@.len(),
    {
        self.len as usize
    }

    /// The content bytes, copied out in order.
    pub fn to_bytes(&self) -> (r: Vec<u8>)
        requires
            self.wf(),
        ensures
            r@ == self@,
    {
        let mut out: Vec<u8> = Vec::new();
        let n = self.len as usize;
        let mut i: usize = 0;
        while i < n
            invariant
                i <= n,
                n < N,
                n == self@.len(),
                self.wf(),
                out@.len() == i,
                forall|j: int| 0 <= j < i ==> out@[j] == self@[j],
            decreases n - i,
        {
            let b = self.data[i];
            assert(b == self@[i as int]);
            out.push(b);
            i += 1;
        }
        proof {
            assert(out@ =~= self@);
        }
        out
    }
}

impl<const N: usize> Default for FixedString<N> {
    /// The empty debug name.
    fn default() -> (r: Self)
        ensures
            r@ == Seq::<u8>::empty(),
            N >= 1 ==> r.wf(),
    {
        let r = FixedString { data: [0u8; N], len: 0 };
        proof {
            assert(r@ =~= Seq::<u8>::empty());
        }
        r
    }
}

/// The inline debug-name string embedded in the engine's descriptors: a
/// 39-byte buffer, so content of at most 38 bytes.
pub type SmallString = FixedString<39>;

/// Creation descriptor for a timeline query pool.
#[derive(Clone, Copy, Debug)]
pub struct AllocateInfo {
    pub query_count: u32,
    pub name: SmallString,
}

/// A payload paired with a presence flag, embeddable in the engine's
/// descriptor layouts where an optional sub-structure is wanted without
/// indirection. The payload slot always holds a value of the payload type,
/// but it is observable only while the presence flag is raised.
#[derive(Clone, Copy, Debug)]
pub struct FfiOption<T> {
    data: T,
    has_value: bool,
}

impl<T> FfiOption<T> {
    /// Whether a payload is present.
    pub closed spec fn has_value_spec(self) -> bool {
        self.has_value
    }

    /// The payload slot's content, meaningful only when a payload is present.
    pub closed spec fn data_spec(self) -> T {
        self.data
    }

    /// What this wrapper holds: the payload when present, nothing otherwise.
    pub open spec fn opt_spec(self) -> Option<T> {
        if self.has_value_spec() {
            Some(self.data_spec())
        } else {
            None
        }
    }

    /// Wrap a present payload.
    pub fn some(data: T) -> (r: FfiOption<T>)
        ensures
            r.opt_spec() == Some(data),
    {
        FfiOption { data, has_value: true }
    }

    /// Wrap no payload. The filler value only keeps the payload slot
    /// initialized; it is never observable through this wrapper.
    pub fn absent(filler: T) -> (r: FfiOption<T>)
        ensures
            r.opt_spec() is None,
    {
        FfiOption { data: filler, has_value: false }
    }

    /// Wrap a standard optional value: a present payload keeps its value,
    /// an absent one leaves only the filler in the payload slot, where it
    /// is never observable.
    pub fn from_option(value: Option<T>, filler: T) -> (r: FfiOption<T>)
        ensures
            r.opt_spec() == value,
    {
        match value {
            Some(data) => FfiOption { data, has_value: true },
            None => FfiOption { data: filler, has_value: false },
        }
    }

    /// Whether a payload is present.
    pub fn has_value(&self) -> (r: bool)
        ensures
            r == self.has_value_spec(),
    {
        self.has_value
    }

    /// Unwrap: the payload when the presence flag is raised, nothing
    /// otherwise. The payload slot is read only under the raised flag.
    pub fn into_option(self) -> (r: Option<T>)
        ensures
            r == self.opt_spec(),
    {
        if self.has_value {
            Some(self.data)
        } else {
            None
        }
    }

    /// Borrow the payload of a wrapper known to hold one.
    pub fn value(&self) -> (r: &T)
        requires
            self.has_value_spec(),
        ensures
            *r == self.data_spec(),
    {
        &self.data
    }

    /// The nullable-reference view of the wrapper: borrow the payload when
    /// the presence flag is raised, yield nothing otherwise. The payload
    /// slot is read only under the raised flag.
    pub fn as_option_ref(&self) -> (r: Option<&T>)
        ensures
            match r {
                Some(p) => self.has_value_spec() && *p == self.data_spec(),
                None => !self.has_value_spec(),
            },
    {
        if self.has_value {
            Some(&self.data)
        } else {
            None
        }
    }

    /// The mutable counterpart of [`FfiOption::as_option_ref`]: borrow the
    /// payload mutably when the presence flag is raised, yield nothing and
    /// leave the wrapper unchanged otherwise. Both paths honor the flag
    /// independently; neither reaches the payload slot under a lowered
    /// flag.
    pub fn as_option_mut(&mut self) -> (r: Option<&mut T>)
        ensures
            old(self).has_value_spec() ==> (r matches Some(p) && *p == old(self).data_spec()
                && final(self).has_value_spec() && final(self).data_spec() == *final(p)),
            !old(self).has_value_spec() ==> r is None && *final(self) == *old(self),
    {
        if self.has_value {
            Some(&mut self.data)
        } else {
            None
        }
    }
}

/// Round trip of the optional wrapper: a wrapper holds `Some(v)` exactly
/// when its presence flag is raised over payload `v`, and a wrapper whose
/// flag is down holds nothing, whatever value keeps its payload slot
/// initialized.
pub proof fn lemma_ffi_option_roundtrip<T>(w: FfiOption<T>, v: T)
    ensures
        w.opt_spec() == Some(v) <==> w.has_value_spec() && w.data_spec() == v,
        !w.has_value_spec() ==> w.opt_spec() is None,
{
}

/// Creation descriptor for a buffer: its byte size, how its memory should
/// be allocated, and a debug name.
#[derive(Clone, Copy, Debug)]
pub struct BufferInfo {
    pub size: usize,
    pub allocate_info: MemoryFlags,
    pub name: SmallString,
}

/// Creation descriptor for an image: capabilities, dimensions, format,
/// mip/array/sample counts, usage, allocation behavior, and a debug name.
#[derive(Clone, Copy, Debug)]
pub struct ImageInfo {
    pub flags: ImageCreateFlags,
    pub extent: Extent,
    pub format: crate::format::Format,
    pub mip_level_count: u32,
    pub array_layer_count: u32,
    pub sample_count: u32,
    pub usage: ImageUsageFlags,
    pub allocate_info: MemoryFlags,
    pub name: SmallString,
}

/// Creation descriptor for an image view: the viewed image, the view's
/// dimensionality and format, the slice it covers, and a debug name.
#[derive(Clone, Copy, Debug)]
pub struct ImageViewInfo {
    pub ty: ImageViewType,
    pub format: crate::format::Format,
    pub image: ImageId,
    pub slice: ImageMipArraySlice,
    pub name: SmallString,
}

/// Creation descriptor for a sampler. Level-of-detail bias and bounds and
/// the anisotropy maximum are single-precision values carried as raw bits.
#[derive(Clone, Copy, Debug)]
pub struct SamplerInfo {
    pub magnification_filter: Filter,
    pub minification_filter: Filter,
    pub mipmap_filter: Filter,
    pub reduction_mode: ReductionMode,
    pub address_mode_u: SamplerAddressMode,
    pub address_mode_v: SamplerAddressMode,
    pub address_mode_w: SamplerAddressMode,
    pub mip_lod_bias: F32Bits,
    pub enable_anisotropy: bool,
    pub max_anisotropy: F32Bits,
    pub compare_op: CompareOp,
    pub min_lod: F32Bits,
    pub max_lod: F32Bits,
    pub border_color: BorderColor,
    pub enable_unnormalized_coordinates: bool,
    pub name: SmallString,
}

/// One batch of GPU work handed to a device queue: the recorders to run and
/// the semaphores the batch waits for and signals.
pub struct CommandSubmitInfo {
    pub wait_stages: PipelineStageFlags,
    pub cmd_recorders: Vec<crate::command_recorder::CommandRecorder>,
    pub wait_binary_semaphores: Vec<BinarySemaphore>,
    pub signal_binary_semaphores: Vec<BinarySemaphore>,
    pub wait_timeline_semaphores: Vec<BinarySemaphore>,
    pub signal_timeline_semaphores: Vec<BinarySemaphore>,
}

/// A presentation request: the swapchain whose acquired image is shown and
/// the semaphores presentation waits for.
pub struct PresentInfo {
    pub wait_binary_semaphores: Vec<BinarySemaphore>,
    pub swapchain: Swapchain,
}

/// Byte length of the pipeline-cache identifier the graphics API reports.
pub const VK_UUID_SIZE: usize = 16;

/// The plain-valued identity of a physical device as the graphics API
/// reports it. The API's limit and sparse-property tables ride along
/// natively and are not modeled here.
#[derive(Clone, Copy, Debug)]
pub struct VkPhysicalDeviceProperties {
    pub api_version: u32,
    pub driver_version: u32,
    pub vendor_id: u32,
    pub device_id: u32,
    pub device_type: crate::device::DeviceType,
    pub device_name: SmallString,
    pub pipeline_cache_uuid: [u8; VK_UUID_SIZE],
}

/// Composition law for 32-bit flag sets: the union of two sets contains
/// each of them, whichever bits each holds.
pub proof fn lemma_flag_absorption_u32(a: u32, b: u32)
    by (bit_vector)
    ensures
        (a | b) & a == a,
        (a | b) & b == b,
{
}

/// Composition law for 64-bit flag sets: the union of two sets contains
/// each of them, whichever bits each holds.
pub proof fn lemma_flag_absorption_u64(a: u64, b: u64)
    by (bit_vector)
    ensures
        (a | b) & a == a,
        (a | b) & b == b,
{
}

} // verus!
