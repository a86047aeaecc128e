//! Declarative descriptions of rasterization and compute pipelines:
//! shader-stage references, blend and depth-test state, tessellation and
//! rasterizer state, and the descriptors a device turns into pipeline
//! handles.
//!
//! Single-precision quantities (depth bounds, depth bias, line width) are
//! carried as raw bit patterns; their arithmetic belongs to the engine.

use vstd::prelude::*;

use crate::format::Format;
use crate::types::{CompareOp, F32Bits, FfiOption, SmallString, F32_BITS_ONE, F32_BITS_ZERO};

verus! {

/// A shader stage: the stage's bytecode words and the entry point's name.
#[derive(Clone, Debug)]
pub struct ShaderInfo {
    pub byte_code: Vec<u32>,
    pub entry_point: Vec<u8>,
}

/// Depth-test configuration of a rasterization pipeline. Depth bounds are
/// single-precision values carried as raw bits.
#[derive(Clone, Copy, Debug, PartialEq, Eq, Structural)]
pub struct DepthTestInfo {
    pub depth_attachment_format: Format,
    pub enable_depth_write: bool,
    pub depth_test_compare_op: CompareOp,
    pub min_depth_bounds: F32Bits,
    pub max_depth_bounds: F32Bits,
}

impl Default for DepthTestInfo {
    /// The default depth test names no depth attachment (so depth testing
    /// is effectively disabled), keeps depth writes off, compares with
    /// less-or-equal, and bounds depth to the unit range.
    fn default() -> (r: DepthTestInfo)
        ensures
            r.depth_attachment_format == Format::Undefined,
            !r.enable_depth_write,
            r.depth_test_compare_op == CompareOp::LessOrEqual,
            r.min_depth_bounds == F32_BITS_ZERO,
            r.max_depth_bounds == F32_BITS_ONE,
    {
        DepthTestInfo {
            depth_attachment_format: Format::Undefined,
            enable_depth_write: false,
            depth_test_compare_op: CompareOp::LessOrEqual,
            min_depth_bounds: F32_BITS_ZERO,
            max_depth_bounds: F32_BITS_ONE,
        }
    }
}

/// A multiplier applied to a blend operand, mirroring the graphics API.
#[derive(Clone, Copy, Debug, PartialEq, Eq, Structural)]
pub enum BlendFactor {
    Zero,
    One,
    SrcColor,
    OneMinusSrcColor,
    DstColor,
    OneMinusDstColor,
    SrcAlpha,
    OneMinusSrcAlpha,
    DstAlpha,
    OneMinusDstAlpha,
    ConstantColor,
    OneMinusConstantColor,
    ConstantAlpha,
    OneMinusConstantAlpha,
    SrcAlphaSaturate,
    Src1Color,
    OneMinusSrc1Color,
    Src1Alpha,
    OneMinusSrc1Alpha,
}

impl BlendFactor {
    /// The native engine's integer value for this variant.
    pub open spec fn code_spec(self) -> u32 {
        match self {
            BlendFactor::Zero => 0,
            BlendFactor::One => 1,
            BlendFactor::SrcColor => 2,
            BlendFactor::OneMinusSrcColor => 3,
            BlendFactor::DstColor => 4,
            BlendFactor::OneMinusDstColor => 5,
            BlendFactor::SrcAlpha => 6,
            BlendFactor::OneMinusSrcAlpha => 7,
            BlendFactor::DstAlpha => 8,
            BlendFactor::OneMinusDstAlpha => 9,
            BlendFactor::ConstantColor => 10,
            BlendFactor::OneMinusConstantColor => 11,
            BlendFactor::ConstantAlpha => 12,
            BlendFactor::OneMinusConstantAlpha => 13,
            BlendFactor::SrcAlphaSaturate => 14,
            BlendFactor::Src1Color => 15,
            BlendFactor::OneMinusSrc1Color => 16,
            BlendFactor::Src1Alpha => 17,
            BlendFactor::OneMinusSrc1Alpha => 18,
        }
    }

    /// Translate this variant to the native engine's integer value.
    pub fn code(self) -> (r: u32)
        ensures
            r == self.code_spec(),
    {
        match self {
            BlendFactor::Zero => 0,
            BlendFactor::One => 1,
            BlendFactor::SrcColor => 2,
            BlendFactor::OneMinusSrcColor => 3,
            BlendFactor::DstColor => 4,
            BlendFactor::OneMinusDstColor => 5,
            BlendFactor::SrcAlpha => 6,
            BlendFactor::OneMinusSrcAlpha => 7,
            BlendFactor::DstAlpha => 8,
            BlendFactor::OneMinusDstAlpha => 9,
            BlendFactor::ConstantColor => 10,
            BlendFactor::OneMinusConstantColor => 11,
            BlendFactor::ConstantAlpha => 12,
            BlendFactor::OneMinusConstantAlpha => 13,
            BlendFactor::SrcAlphaSaturate => 14,
            BlendFactor::Src1Color => 15,
            BlendFactor::OneMinusSrc1Color => 16,
            BlendFactor::Src1Alpha => 17,
            BlendFactor::OneMinusSrc1Alpha => 18,
        }
    }
}

/// How two blend operands are combined, mirroring the graphics API.
#[derive(Clone, Copy, Debug, PartialEq, Eq, Structural)]
pub enum BlendOp {
    Add,
    Subtract,
    ReverseSubtract,
    Min,
    Max,
    ZeroExt,
    SrcExt,
    DstExt,
    SrcOverExt,
    DstOverExt,
    SrcInExt,
    DstInExt,
    SrcOutExt,
    DstOutExt,
    SrcAtopExt,
    DstAtopExt,
    XorExt,
    MultiplyExt,
    ScreenExt,
    OverlayExt,
    DarkenExt,
    LightenExt,
    ColordodgeExt,
    ColorburnExt,
    HardlightExt,
    SoftlightExt,
    DifferenceExt,
    ExclusionExt,
    InvertExt,
    InvertRgbExt,
    LineardodgeExt,
    LinearburnExt,
    VividlightExt,
    LinearlightExt,
    PinlightExt,
    HardmixExt,
    HslHueExt,
    HslSaturationExt,
    HslColorExt,
    HslLuminosityExt,
    PlusExt,
    PlusClampedExt,
    PlusClampedAlphaExt,
    PlusDarkerExt,
    MinusExt,
    MinusClampedExt,
    ContrastExt,
    InvertOvgExt,
    RedExt,
    GreenExt,
    BlueExt,
}

impl BlendOp {
    /// The native engine's integer value for this variant.
    pub open spec fn code_spec(self) -> u32 {
        match self {
            BlendOp::Add => 0,
            BlendOp::Subtract => 1,
            BlendOp::ReverseSubtract => 2,
            BlendOp::Min => 3,
            BlendOp::Max => 4,
            BlendOp::ZeroExt => 1000148000,
            BlendOp::SrcExt => 1000148001,
            BlendOp::DstExt => 1000148002,
            BlendOp::SrcOverExt => 1000148003,
            BlendOp::DstOverExt => 1000148004,
            BlendOp::SrcInExt => 1000148005,
            BlendOp::DstInExt => 1000148006,
            BlendOp::SrcOutExt => 1000148007,
            BlendOp::DstOutExt => 1000148008,
            BlendOp::SrcAtopExt => 1000148009,
            BlendOp::DstAtopExt => 1000148010,
            BlendOp::XorExt => 1000148011,
            BlendOp::MultiplyExt => 1000148012,
            BlendOp::ScreenExt => 1000148013,
            BlendOp::OverlayExt => 1000148014,
            BlendOp::DarkenExt => 1000148015,
            BlendOp::LightenExt => 1000148016,
            BlendOp::ColordodgeExt => 1000148017,
            BlendOp::ColorburnExt => 1000148018,
            BlendOp::HardlightExt => 1000148019,
            BlendOp::SoftlightExt => 1000148020,
            BlendOp::DifferenceExt => 1000148021,
            BlendOp::ExclusionExt => 1000148022,
            BlendOp::InvertExt => 1000148023,
            BlendOp::InvertRgbExt => 1000148024,
            BlendOp::LineardodgeExt => 1000148025,
            BlendOp::LinearburnExt => 1000148026,
            BlendOp::VividlightExt => 1000148027,
            BlendOp::LinearlightExt => 1000148028,
            BlendOp::PinlightExt => 1000148029,
            BlendOp::HardmixExt => 1000148030,
            BlendOp::HslHueExt => 1000148031,
            BlendOp::HslSaturationExt => 1000148032,
            BlendOp::HslColorExt => 1000148033,
            BlendOp::HslLuminosityExt => 1000148034,
            BlendOp::PlusExt => 1000148035,
            BlendOp::PlusClampedExt => 1000148036,
            BlendOp::PlusClampedAlphaExt => 1000148037,
            BlendOp::PlusDarkerExt => 1000148038,
            BlendOp::MinusExt => 1000148039,
            BlendOp::MinusClampedExt => 1000148040,
            BlendOp::ContrastExt => 1000148041,
            BlendOp::InvertOvgExt => 1000148042,
            BlendOp::RedExt => 1000148043,
            BlendOp::GreenExt => 1000148044,
            BlendOp::BlueExt => 1000148045,
        }
    }

    /// Translate this variant to the native engine's integer value.
    pub fn code(self) -> (r: u32)
        ensures
            r == self.code_spec(),
    {
        match self {
            BlendOp::Add => 0,
            BlendOp::Subtract => 1,
            BlendOp::ReverseSubtract => 2,
            BlendOp::Min => 3,
            BlendOp::Max => 4,
            BlendOp::ZeroExt => 1000148000,
            BlendOp::SrcExt => 1000148001,
            BlendOp::DstExt => 1000148002,
            BlendOp::SrcOverExt => 1000148003,
            BlendOp::DstOverExt => 1000148004,
            BlendOp::SrcInExt => 1000148005,
            BlendOp::DstInExt => 1000148006,
            BlendOp::SrcOutExt => 1000148007,
            BlendOp::DstOutExt => 1000148008,
            BlendOp::SrcAtopExt => 1000148009,
            BlendOp::DstAtopExt => 1000148010,
            BlendOp::XorExt => 1000148011,
            BlendOp::MultiplyExt => 1000148012,
            BlendOp::ScreenExt => 1000148013,
            BlendOp::OverlayExt => 1000148014,
            BlendOp::DarkenExt => 1000148015,
            BlendOp::LightenExt => 1000148016,
            BlendOp::ColordodgeExt => 1000148017,
            BlendOp::ColorburnExt => 1000148018,
            BlendOp::HardlightExt => 1000148019,
            BlendOp::SoftlightExt => 1000148020,
            BlendOp::DifferenceExt => 1000148021,
            BlendOp::ExclusionExt => 1000148022,
            BlendOp::InvertExt => 1000148023,
            BlendOp::InvertRgbExt => 1000148024,
            BlendOp::LineardodgeExt => 1000148025,
            BlendOp::LinearburnExt => 1000148026,
            BlendOp::VividlightExt => 1000148027,
            BlendOp::LinearlightExt => 1000148028,
            BlendOp::PinlightExt => 1000148029,
            BlendOp::HardmixExt => 1000148030,
            BlendOp::HslHueExt => 1000148031,
            BlendOp::HslSaturationExt => 1000148032,
            BlendOp::HslColorExt => 1000148033,
            BlendOp::HslLuminosityExt => 1000148034,
            BlendOp::PlusExt => 1000148035,
            BlendOp::PlusClampedExt => 1000148036,
            BlendOp::PlusClampedAlphaExt => 1000148037,
            BlendOp::PlusDarkerExt => 1000148038,
            BlendOp::MinusExt => 1000148039,
            BlendOp::MinusClampedExt => 1000148040,
            BlendOp::ContrastExt => 1000148041,
            BlendOp::InvertOvgExt => 1000148042,
            BlendOp::RedExt => 1000148043,
            BlendOp::GreenExt => 1000148044,
            BlendOp::BlueExt => 1000148045,
        }
    }
}
pub const COLOR_COMPONENT_R: u32 = 0x1;

pub const COLOR_COMPONENT_G: u32 = 0x2;

pub const COLOR_COMPONENT_B: u32 = 0x4;

pub const COLOR_COMPONENT_A: u32 = 0x8;

/// Which color channels a write reaches; one bit per channel.
#[derive(Clone, Copy, Debug, PartialEq, Eq, Structural)]
pub struct ColorComponentFlags {
    pub bits: u32,
}

impl ColorComponentFlags {
    /// The set with no bits raised.
    pub fn empty() -> (r: ColorComponentFlags)
        ensures
            r.bits == 0,
    {
        ColorComponentFlags { bits: 0 }
    }

    /// The set holding exactly the given bits.
    pub fn from_bits(bits: u32) -> (r: ColorComponentFlags)
        ensures
            r.bits == bits,
    {
        ColorComponentFlags { bits }
    }

    /// Raise every bit that is raised in either set.
    pub fn union(self, other: ColorComponentFlags) -> (r: ColorComponentFlags)
        ensures
            r.bits == self.bits | other.bits,
    {
        ColorComponentFlags { bits: self.bits | other.bits }
    }

    /// Keep only the bits raised in both sets.
    pub fn intersection(self, other: ColorComponentFlags) -> (r: ColorComponentFlags)
        ensures
            r.bits == self.bits & other.bits,
    {
        ColorComponentFlags { bits: self.bits & other.bits }
    }

    /// Whether every bit of `other` is raised in `self`.
    pub fn contains(self, other: ColorComponentFlags) -> (r: bool)
        ensures
            r == (self.bits & other.bits == other.bits),
    {
        self.bits & other.bits == other.bits
    }
}

impl Default for ColorComponentFlags {
    /// The default mask raises no bits.
    fn default() -> (r: ColorComponentFlags)
        ensures
            r.bits == 0,
    {
        ColorComponentFlags { bits: 0 }
    }
}

/// Blend configuration of one color attachment.
#[derive(Clone, Copy, Debug, PartialEq, Eq, Structural)]
pub struct BlendInfo {
    pub src_color_blend_factor: BlendFactor,
    pub dst_color_blend_factor: BlendFactor,
    pub color_blend_op: BlendOp,
    pub src_alpha_blend_factor: BlendFactor,
    pub dst_alpha_blend_factor: BlendFactor,
    pub alpha_blend_op: BlendOp,
    pub color_write_mask: ColorComponentFlags,
}

impl Default for BlendInfo {
    /// The default blend writes the source through unblended: source
    /// factor one, destination factor zero, additive ops, and all four
    /// channels enabled.
    fn default() -> (r: BlendInfo)
        ensures
            r.src_color_blend_factor == BlendFactor::One,
            r.dst_color_blend_factor == BlendFactor::Zero,
            r.color_blend_op == BlendOp::Add,
            r.src_alpha_blend_factor == BlendFactor::One,
            r.dst_alpha_blend_factor == BlendFactor::Zero,
            r.alpha_blend_op == BlendOp::Add,
            r.color_write_mask.bits == COLOR_COMPONENT_R | COLOR_COMPONENT_G | COLOR_COMPONENT_B
                | COLOR_COMPONENT_A,
    {
        BlendInfo {
            src_color_blend_factor: BlendFactor::One,
            dst_color_blend_factor: BlendFactor::Zero,
            color_blend_op: BlendOp::Add,
            src_alpha_blend_factor: BlendFactor::One,
            dst_alpha_blend_factor: BlendFactor::Zero,
            alpha_blend_op: BlendOp::Add,
            color_write_mask: ColorComponentFlags {
                bits: COLOR_COMPONENT_R | COLOR_COMPONENT_G | COLOR_COMPONENT_B
                    | COLOR_COMPONENT_A,
            },
        }
    }
}

/// One color attachment of a rasterization pipeline: its format and, when
/// blending is wanted, its blend configuration.
#[derive(Clone, Copy, Debug)]
pub struct RenderAttachment {
    pub format: Format,
    pub blend: FfiOption<BlendInfo>,
}

/// Which corner the tessellation domain is anchored at.
#[derive(Clone, Copy, Debug, PartialEq, Eq, Structural)]
pub enum TesselationDomainOrigin {
    UpperLeft,
    LowerLeft,
    /// The graphics API aliases the KHR name to the same value as `UpperLeft`.
    UpperLeftKhr,
    /// The graphics API aliases the KHR name to the same value as `LowerLeft`.
    LowerLeftKhr,
}

impl TesselationDomainOrigin {
    /// The native engine's integer value for this variant.
    pub open spec fn code_spec(self) -> u32 {
        match self {
            TesselationDomainOrigin::UpperLeft => 0,
            TesselationDomainOrigin::LowerLeft => 1,
            TesselationDomainOrigin::UpperLeftKhr => 0,
            TesselationDomainOrigin::LowerLeftKhr => 1,
        }
    }

    /// Translate this variant to the native engine's integer value.
    pub fn code(self) -> (r: u32)
        ensures
            r == self.code_spec(),
    {
        match self {
            TesselationDomainOrigin::UpperLeft => 0,
            TesselationDomainOrigin::LowerLeft => 1,
            TesselationDomainOrigin::UpperLeftKhr => 0,
            TesselationDomainOrigin::LowerLeftKhr => 1,
        }
    }
}

/// Tessellation configuration of a rasterization pipeline.
#[derive(Clone, Copy, Debug, PartialEq, Eq, Structural)]
pub struct TesselationInfo {
    pub control_points: u32,
    pub origin: TesselationDomainOrigin,
}

/// How vertices are assembled into primitives.
#[derive(Clone, Copy, Debug, PartialEq, Eq, Structural)]
pub enum PrimitiveTopology {
    PointList,
    LineList,
    LineStrip,
    TriangleList,
    TriangleStrip,
    TriangleFan,
    LineListWithAdjacency,
    LineStripWithAdjacency,
    TriangleListWithAdjacency,
    TriangleStripWithAdjacency,
    PatchList,
}

impl PrimitiveTopology {
    /// The native engine's integer value for this variant.
    pub open spec fn code_spec(self) -> u32 {
        match self {
            PrimitiveTopology::PointList => 0,
            PrimitiveTopology::LineList => 1,
            PrimitiveTopology::LineStrip => 2,
            PrimitiveTopology::TriangleList => 3,
            PrimitiveTopology::TriangleStrip => 4,
            PrimitiveTopology::TriangleFan => 5,
            PrimitiveTopology::LineListWithAdjacency => 6,
            PrimitiveTopology::LineStripWithAdjacency => 7,
            PrimitiveTopology::TriangleListWithAdjacency => 8,
            PrimitiveTopology::TriangleStripWithAdjacency => 9,
            PrimitiveTopology::PatchList => 10,
        }
    }

    /// Translate this variant to the native engine's integer value.
    pub fn code(self) -> (r: u32)
        ensures
            r == self.code_spec(),
    {
        match self {
            PrimitiveTopology::PointList => 0,
            PrimitiveTopology::LineList => 1,
            PrimitiveTopology::LineStrip => 2,
            PrimitiveTopology::TriangleList => 3,
            PrimitiveTopology::TriangleStrip => 4,
            PrimitiveTopology::TriangleFan => 5,
            PrimitiveTopology::LineListWithAdjacency => 6,
            PrimitiveTopology::LineStripWithAdjacency => 7,
            PrimitiveTopology::TriangleListWithAdjacency => 8,
            PrimitiveTopology::TriangleStripWithAdjacency => 9,
            PrimitiveTopology::PatchList => 10,
        }
    }
}

/// How assembled polygons are rasterized.
#[derive(Clone, Copy, Debug, PartialEq, Eq, Structural)]
pub enum PolygonMode {
    Fill,
    Line,
    Point,
    FillRectangleNV,
}

impl PolygonMode {
    /// The native engine's integer value for this variant.
    pub open spec fn code_spec(self) -> u32 {
        match self {
            PolygonMode::Fill => 0,
            PolygonMode::Line => 1,
            PolygonMode::Point => 2,
            PolygonMode::FillRectangleNV => 1000153000,
        }
    }

    /// Translate this variant to the native engine's integer value.
    pub fn code(self) -> (r: u32)
        ensures
            r == self.code_spec(),
    {
        match self {
            PolygonMode::Fill => 0,
            PolygonMode::Line => 1,
            PolygonMode::Point => 2,
            PolygonMode::FillRectangleNV => 1000153000,
        }
    }
}
pub const CULL_MODE_NONE: u32 = 0x0;

pub const CULL_MODE_FRONT_BIT: u32 = 0x1;

pub const CULL_MODE_BACK_BIT: u32 = 0x2;

pub const CULL_MODE_FRONT_AND_BACK: u32 = 0x3;

/// Which primitive faces are discarded before rasterization.
#[derive(Clone, Copy, Debug, PartialEq, Eq, Structural)]
pub struct CullModeFlags {
    pub bits: u32,
}

impl CullModeFlags {
    /// The set with no bits raised.
    pub fn empty() -> (r: CullModeFlags)
        ensures
            r.bits == 0,
    {
        CullModeFlags { bits: 0 }
    }

    /// The set holding exactly the given bits.
    pub fn from_bits(bits: u32) -> (r: CullModeFlags)
        ensures
            r.bits == bits,
    {
        CullModeFlags { bits }
    }

    /// Raise every bit that is raised in either set.
    pub fn union(self, other: CullModeFlags) -> (r: CullModeFlags)
        ensures
            r.bits == self.bits | other.bits,
    {
        CullModeFlags { bits: self.bits | other.bits }
    }

    /// Keep only the bits raised in both sets.
    pub fn intersection(self, other: CullModeFlags) -> (r: CullModeFlags)
        ensures
            r.bits == self.bits & other.bits,
    {
        CullModeFlags { bits: self.bits & other.bits }
    }

    /// Whether every bit of `other` is raised in `self`.
    pub fn contains(self, other: CullModeFlags) -> (r: bool)
        ensures
            r == (self.bits & other.bits == other.bits),
    {
        self.bits & other.bits == other.bits
    }
}

impl Default for CullModeFlags {
    /// The default culls no faces.
    fn default() -> (r: CullModeFlags)
        ensures
            r.bits == 0,
    {
        CullModeFlags { bits: 0 }
    }
}

/// The winding that makes a primitive front-facing.
#[derive(Clone, Copy, Debug, PartialEq, Eq, Structural)]
pub enum FrontFace {
    CounterClockwise,
    Clockwise,
}

impl FrontFace {
    /// The native engine's integer value for this variant.
    pub open spec fn code_spec(self) -> u32 {
        match self {
            FrontFace::CounterClockwise => 0,
            FrontFace::Clockwise => 1,
        }
    }

    /// Translate this variant to the native engine's integer value.
    pub fn code(self) -> (r: u32)
        ensures
            r == self.code_spec(),
    {
        match self {
            FrontFace::CounterClockwise => 0,
            FrontFace::Clockwise => 1,
        }
    }
}

/// Whether and how rasterization over-approximates primitive coverage.
#[derive(Clone, Copy, Debug, PartialEq, Eq, Structural)]
pub enum ConsevativeRasterizationModeEXT {
    DisabledExt,
    OverestimateExt,
    UnderestimateExt,
}

impl ConsevativeRasterizationModeEXT {
    /// The native engine's integer value for this variant.
    pub open spec fn code_spec(self) -> u32 {
        match self {
            ConsevativeRasterizationModeEXT::DisabledExt => 0,
            ConsevativeRasterizationModeEXT::OverestimateExt => 1,
            ConsevativeRasterizationModeEXT::UnderestimateExt => 2,
        }
    }

    /// Translate this variant to the native engine's integer value.
    pub fn code(self) -> (r: u32)
        ensures
            r == self.code_spec(),
    {
        match self {
            ConsevativeRasterizationModeEXT::DisabledExt => 0,
            ConsevativeRasterizationModeEXT::OverestimateExt => 1,
            ConsevativeRasterizationModeEXT::UnderestimateExt => 2,
        }
    }
}

/// Conservative-rasterization override of a pipeline. The extra primitive
/// size is a single-precision value carried as raw bits.
#[derive(Clone, Copy, Debug, PartialEq, Eq, Structural)]
pub struct ConsevativeRasterInfo {
    pub mode: ConsevativeRasterizationModeEXT,
    pub size: F32Bits,
}

/// Rasterizer configuration of a rasterization pipeline. Depth-bias values
/// and the line width are single-precision values carried as raw bits.
#[derive(Clone, Copy, Debug)]
pub struct RasterizerInfo {
    pub primitive_topology: PrimitiveTopology,
    pub primitive_restart_enable: bool,
    pub polygon_mode: PolygonMode,
    pub face_culling: CullModeFlags,
    pub front_face_winding: FrontFace,
    pub depth_clamp_enable: bool,
    pub rasterizer_discard_enable: bool,
    pub depth_bias_enable: bool,
    pub depth_bias_constant_factor: F32Bits,
    pub depth_bias_clamp: F32Bits,
    pub depth_bias_slope_factor: F32Bits,
    pub line_width: F32Bits,
    pub conservative_raster_info: FfiOption<ConsevativeRasterInfo>,
}

impl Default for RasterizerInfo {
    /// The default rasterizer assembles triangle lists without primitive
    /// restart, fills polygons, culls no faces, winds front faces
    /// clockwise, keeps depth clamp, rasterizer discard and depth bias
    /// off with zero bias values, draws lines one unit wide, and applies
    /// no conservative-rasterization override.
    fn default() -> (r: RasterizerInfo)
        ensures
            r.primitive_topology == PrimitiveTopology::TriangleList,
            !r.primitive_restart_enable,
            r.polygon_mode == PolygonMode::Fill,
            r.face_culling.bits == CULL_MODE_NONE,
            r.front_face_winding == FrontFace::Clockwise,
            !r.depth_clamp_enable,
            !r.rasterizer_discard_enable,
            !r.depth_bias_enable,
            r.depth_bias_constant_factor == F32_BITS_ZERO,
            r.depth_bias_clamp == F32_BITS_ZERO,
            r.depth_bias_slope_factor == F32_BITS_ZERO,
            r.line_width == F32_BITS_ONE,
            r.conservative_raster_info.opt_spec() is None,
    {
        RasterizerInfo {
            primitive_topology: PrimitiveTopology::TriangleList,
            primitive_restart_enable: false,
            polygon_mode: PolygonMode::Fill,
            face_culling: CullModeFlags { bits: CULL_MODE_NONE },
            front_face_winding: FrontFace::Clockwise,
            depth_clamp_enable: false,
            rasterizer_discard_enable: false,
            depth_bias_enable: false,
            depth_bias_constant_factor: F32_BITS_ZERO,
            depth_bias_clamp: F32_BITS_ZERO,
            depth_bias_slope_factor: F32_BITS_ZERO,
            line_width: F32_BITS_ONE,
            conservative_raster_info: FfiOption::absent(ConsevativeRasterInfo {
                mode: ConsevativeRasterizationModeEXT::DisabledExt,
                size: F32_BITS_ZERO,
            }),
        }
    }
}

/// Most color attachments a rasterization pipeline may name.
pub const MAX_COLOR_ATTACHMENTS: usize = 8;

/// Creation descriptor for a rasterization pipeline: up to six optional
/// shader stages, up to eight color attachments, optional depth-test and
/// tessellation configuration, the rasterizer state, the push-constant
/// budget in bytes, and a debug name.
#[derive(Clone, Debug)]
pub struct RasterPipelineInfo {
    pub mesh_shader_info: FfiOption<ShaderInfo>,
    pub vertex_shader_info: FfiOption<ShaderInfo>,
    pub tesselation_control_shader_info: FfiOption<ShaderInfo>,
    pub tesselation_evaluation_shader_info: FfiOption<ShaderInfo>,
    pub fragment_shader_info: FfiOption<ShaderInfo>,
    pub task_shader_info: FfiOption<ShaderInfo>,
    pub color_attachments: Vec<RenderAttachment>,
    pub depth_test: FfiOption<DepthTestInfo>,
    pub tesselation: FfiOption<TesselationInfo>,
    pub raster: RasterizerInfo,
    pub push_constant_size: u32,
    pub name: SmallString,
}

impl RasterPipelineInfo {
    /// The descriptor names at most eight color attachments.
    pub open spec fn wf(&self) -> bool {
        self.color_attachments@.len() <= MAX_COLOR_ATTACHMENTS
    }
}

/// Creation descriptor for a compute pipeline: the compute stage, the
/// push-constant budget in bytes, and a debug name.
#[derive(Clone, Debug)]
pub struct ComputePipelineInfo {
    pub shader_info: ShaderInfo,
    pub push_constant_size: u32,
    pub name: SmallString,
}

} // verus!
