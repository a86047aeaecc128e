//! The pixel/texel format space shared with the native engine.
//!
//! Each named variant corresponds to exactly one of the engine's format
//! constants; `code` and `from_code` translate between the two worlds, and
//! `lemma_format_code_roundtrip` shows the translation loses nothing.

use vstd::prelude::*;

verus! {

/// A pixel or texel format, mirroring the native engine's format enumeration
/// one variant per constant. The numeric identifier of each variant is given
/// by [`Format::code_spec`]; `Undefined` carries the identifier 0.
#[derive(Clone, Copy, Debug, PartialEq, Eq, Structural)]
pub enum Format {
    Undefined,
    R4g4UnormPack8,
    R4g4b4a4UnormPack16,
    B4g4r4a4UnormPack16,
    R5g6b5UnormPack16,
    B5g6r5UnormPack16,
    R5g5b5a1UnormPack16,
    B5g5r5a1UnormPack16,
    A1r5g5b5UnormPack16,
    R8Unorm,
    R8Snorm,
    R8Uscaled,
    R8Sscaled,
    R8Uint,
    R8Sint,
    R8Srgb,
    R8g8Unorm,
    R8g8Snorm,
    R8g8Uscaled,
    R8g8Sscaled,
    R8g8Uint,
    R8g8Sint,
    R8g8Srgb,
    R8g8b8Unorm,
    R8g8b8Snorm,
    R8g8b8Uscaled,
    R8g8b8Sscaled,
    R8g8b8Uint,
    R8g8b8Sint,
    R8g8b8Srgb,
    B8g8r8Unorm,
    B8g8r8Snorm,
    B8g8r8Uscaled,
    B8g8r8Sscaled,
    B8g8r8Uint,
    B8g8r8Sint,
    B8g8r8Srgb,
    R8g8b8a8Unorm,
    R8g8b8a8Snorm,
    R8g8b8a8Uscaled,
    R8g8b8a8Sscaled,
    R8g8b8a8Uint,
    R8g8b8a8Sint,
    R8g8b8a8Srgb,
    B8g8r8a8Unorm,
    B8g8r8a8Snorm,
    B8g8r8a8Uscaled,
    B8g8r8a8Sscaled,
    B8g8r8a8Uint,
    B8g8r8a8Sint,
    B8g8r8a8Srgb,
    A8b8g8r8UnormPack32,
    A8b8g8r8SnormPack32,
    A8b8g8r8UscaledPack32,
    A8b8g8r8SscaledPack32,
    A8b8g8r8UintPack32,
    A8b8g8r8SintPack32,
    A8b8g8r8SrgbPack32,
    A2r10g10b10UnormPack32,
    A2r10g10b10SnormPack32,
    A2r10g10b10UscaledPack32,
    A2r10g10b10SscaledPack32,
    A2r10g10b10UintPack32,
    A2r10g10b10SintPack32,
    A2b10g10r10UnormPack32,
    A2b10g10r10SnormPack32,
    A2b10g10r10UscaledPack32,
    A2b10g10r10SscaledPack32,
    A2b10g10r10UintPack32,
    A2b10g10r10SintPack32,
    R16Unorm,
    R16Snorm,
    R16Uscaled,
    R16Sscaled,
    R16Uint,
    R16Sint,
    R16Sfloat,
    R16g16Unorm,
    R16g16Snorm,
    R16g16Uscaled,
    R16g16Sscaled,
    R16g16Uint,
    R16g16Sint,
    R16g16Sfloat,
    R16g16b16Unorm,
    R16g16b16Snorm,
    R16g16b16Uscaled,
    R16g16b16Sscaled,
    R16g16b16Uint,
    R16g16b16Sint,
    R16g16b16Sfloat,
    R16g16b16a16Unorm,
    R16g16b16a16Snorm,
    R16g16b16a16Uscaled,
    R16g16b16a16Sscaled,
    R16g16b16a16Uint,
    R16g16b16a16Sint,
    R16g16b16a16Sfloat,
    R32Uint,
    R32Sint,
    R32Sfloat,
    R32g32Uint,
    R32g32Sint,
    R32g32Sfloat,
    R32g32b32Uint,
    R32g32b32Sint,
    R32g32b32Sfloat,
    R32g32b32a32Uint,
    R32g32b32a32Sint,
    R32g32b32a32Sfloat,
    R64Uint,
    R64Sint,
    R64Sfloat,
    R64g64Uint,
    R64g64Sint,
    R64g64Sfloat,
    R64g64b64Uint,
    R64g64b64Sint,
    R64g64b64Sfloat,
    R64g64b64a64Uint,
    R64g64b64a64Sint,
    R64g64b64a64Sfloat,
    B10g11r11UfloatPack32,
    E5b9g9r9UfloatPack32,
    D16Unorm,
    X8D24UnormPack32,
    D32Sfloat,
    S8Uint,
    D16UnormS8Uint,
    D24UnormS8Uint,
    D32SfloatS8Uint,
    Bc1RgbUnormBlock,
    Bc1RgbSrgbBlock,
    Bc1RgbaUnormBlock,
    Bc1RgbaSrgbBlock,
    Bc2UnormBlock,
    Bc2SrgbBlock,
    Bc3UnormBlock,
    Bc3SrgbBlock,
    Bc4UnormBlock,
    Bc4SnormBlock,
    Bc5UnormBlock,
    Bc5SnormBlock,
    Bc6hUfloatBlock,
    Bc6hSfloatBlock,
    Bc7UnormBlock,
    Bc7SrgbBlock,
    Etc2R8g8b8UnormBlock,
    Etc2R8g8b8SrgbBlock,
    Etc2R8g8b8a1UnormBlock,
    Etc2R8g8b8a1SrgbBlock,
    Etc2R8g8b8a8UnormBlock,
    Etc2R8g8b8a8SrgbBlock,
    EacR11UnormBlock,
    EacR11SnormBlock,
    EacR11g11UnormBlock,
    EacR11g11SnormBlock,
    Astc4x4UnormBlock,
    Astc4x4SrgbBlock,
    Astc5x4UnormBlock,
    Astc5x4SrgbBlock,
    Astc5x5UnormBlock,
    Astc5x5SrgbBlock,
    Astc6x5UnormBlock,
    Astc6x5SrgbBlock,
    Astc6x6UnormBlock,
    Astc6x6SrgbBlock,
    Astc8x5UnormBlock,
    Astc8x5SrgbBlock,
    Astc8x6UnormBlock,
    Astc8x6SrgbBlock,
    Astc8x8UnormBlock,
    Astc8x8SrgbBlock,
    Astc10x5UnormBlock,
    Astc10x5SrgbBlock,
    Astc10x6UnormBlock,
    Astc10x6SrgbBlock,
    Astc10x8UnormBlock,
    Astc10x8SrgbBlock,
    Astc10x10UnormBlock,
    Astc10x10SrgbBlock,
    Astc12x10UnormBlock,
    Astc12x10SrgbBlock,
    Astc12x12UnormBlock,
    Astc12x12SrgbBlock,
    G8b8g8r8422Unorm,
    B8g8r8g8422Unorm,
    G8B8R83plane420Unorm,
    G8B8r82plane420Unorm,
    G8B8R83plane422Unorm,
    G8B8r82plane422Unorm,
    G8B8R83plane444Unorm,
    R10x6UnormPack16,
    R10x6g10x6Unorm2pack16,
    R10x6g10x6b10x6a10x6Unorm4pack16,
    G10x6b10x6g10x6r10x6422Unorm4pack16,
    B10x6g10x6r10x6g10x6422Unorm4pack16,
    G10x6B10x6R10x63plane420Unorm3pack16,
    G10x6B10x6r10x62plane420Unorm3pack16,
    G10x6B10x6R10x63plane422Unorm3pack16,
    G10x6B10x6r10x62plane422Unorm3pack16,
    G10x6B10x6R10x63plane444Unorm3pack16,
    R12x4UnormPack16,
    R12x4g12x4Unorm2pack16,
    R12x4g12x4b12x4a12x4Unorm4pack16,
    G12x4b12x4g12x4r12x4422Unorm4pack16,
    B12x4g12x4r12x4g12x4422Unorm4pack16,
    G12x4B12x4R12x43plane420Unorm3pack16,
    G12x4B12x4r12x42plane420Unorm3pack16,
    G12x4B12x4R12x43plane422Unorm3pack16,
    G12x4B12x4r12x42plane422Unorm3pack16,
    G12x4B12x4R12x43plane444Unorm3pack16,
    G16b16g16r16422Unorm,
    B16g16r16g16422Unorm,
    G16B16R163plane420Unorm,
    G16B16r162plane420Unorm,
    G16B16R163plane422Unorm,
    G16B16r162plane422Unorm,
    G16B16R163plane444Unorm,
    G8B8r82plane444Unorm,
    G10x6B10x6r10x62plane444Unorm3pack16,
    G12x4B12x4r12x42plane444Unorm3pack16,
    G16B16r162plane444Unorm,
    A4r4g4b4UnormPack16,
    A4b4g4r4UnormPack16,
    Astc4x4SfloatBlock,
    Astc5x4SfloatBlock,
    Astc5x5SfloatBlock,
    Astc6x5SfloatBlock,
    Astc6x6SfloatBlock,
    Astc8x5SfloatBlock,
    Astc8x6SfloatBlock,
    Astc8x8SfloatBlock,
    Astc10x5SfloatBlock,
    Astc10x6SfloatBlock,
    Astc10x8SfloatBlock,
    Astc10x10SfloatBlock,
    Astc12x10SfloatBlock,
    Astc12x12SfloatBlock,
    Pvrtc12bppUnormBlockImg,
    Pvrtc14bppUnormBlockImg,
    Pvrtc22bppUnormBlockImg,
    Pvrtc24bppUnormBlockImg,
    Pvrtc12bppSrgbBlockImg,
    Pvrtc14bppSrgbBlockImg,
    Pvrtc22bppSrgbBlockImg,
    Pvrtc24bppSrgbBlockImg,
    R16g16S105Nv,
    A1b5g5r5UnormPack16Khr,
    A8UnormKhr,
}

impl Format {
    /// The native engine's integer identifier for this format.
    pub open spec fn code_spec(self) -> u32 {
        match self {
            Format::Undefined => 0,
            Format::R4g4UnormPack8 => 1,
            Format::R4g4b4a4UnormPack16 => 2,
            Format::B4g4r4a4UnormPack16 => 3,
            Format::R5g6b5UnormPack16 => 4,
            Format::B5g6r5UnormPack16 => 5,
            Format::R5g5b5a1UnormPack16 => 6,
            Format::B5g5r5a1UnormPack16 => 7,
            Format::A1r5g5b5UnormPack16 => 8,
            Format::R8Unorm => 9,
            Format::R8Snorm => 10,
            Format::R8Uscaled => 11,
            Format::R8Sscaled => 12,
            Format::R8Uint => 13,
            Format::R8Sint => 14,
            Format::R8Srgb => 15,
            Format::R8g8Unorm => 16,
            Format::R8g8Snorm => 17,
            Format::R8g8Uscaled => 18,
            Format::R8g8Sscaled => 19,
            Format::R8g8Uint => 20,
            Format::R8g8Sint => 21,
            Format::R8g8Srgb => 22,
            Format::R8g8b8Unorm => 23,
            Format::R8g8b8Snorm => 24,
            Format::R8g8b8Uscaled => 25,
            Format::R8g8b8Sscaled => 26,
            Format::R8g8b8Uint => 27,
            Format::R8g8b8Sint => 28,
            Format::R8g8b8Srgb => 29,
            Format::B8g8r8Unorm => 30,
            Format::B8g8r8Snorm => 31,
            Format::B8g8r8Uscaled => 32,
            Format::B8g8r8Sscaled => 33,
            Format::B8g8r8Uint => 34,
            Format::B8g8r8Sint => 35,
            Format::B8g8r8Srgb => 36,
            Format::R8g8b8a8Unorm => 37,
            Format::R8g8b8a8Snorm => 38,
            Format::R8g8b8a8Uscaled => 39,
            Format::R8g8b8a8Sscaled => 40,
            Format::R8g8b8a8Uint => 41,
            Format::R8g8b8a8Sint => 42,
            Format::R8g8b8a8Srgb => 43,
            Format::B8g8r8a8Unorm => 44,
            Format::B8g8r8a8Snorm => 45,
            Format::B8g8r8a8Uscaled => 46,
            Format::B8g8r8a8Sscaled => 47,
            Format::B8g8r8a8Uint => 48,
            Format::B8g8r8a8Sint => 49,
            Format::B8g8r8a8Srgb => 50,
            Format::A8b8g8r8UnormPack32 => 51,
            Format::A8b8g8r8SnormPack32 => 52,
            Format::A8b8g8r8UscaledPack32 => 53,
            Format::A8b8g8r8SscaledPack32 => 54,
            Format::A8b8g8r8UintPack32 => 55,
            Format::A8b8g8r8SintPack32 => 56,
            Format::A8b8g8r8SrgbPack32 => 57,
            Format::A2r10g10b10UnormPack32 => 58,
            Format::A2r10g10b10SnormPack32 => 59,
            Format::A2r10g10b10UscaledPack32 => 60,
            Format::A2r10g10b10SscaledPack32 => 61,
            Format::A2r10g10b10UintPack32 => 62,
            Format::A2r10g10b10SintPack32 => 63,
            Format::A2b10g10r10UnormPack32 => 64,
            Format::A2b10g10r10SnormPack32 => 65,
            Format::A2b10g10r10UscaledPack32 => 66,
            Format::A2b10g10r10SscaledPack32 => 67,
            Format::A2b10g10r10UintPack32 => 68,
            Format::A2b10g10r10SintPack32 => 69,
            Format::R16Unorm => 70,
            Format::R16Snorm => 71,
            Format::R16Uscaled => 72,
            Format::R16Sscaled => 73,
            Format::R16Uint => 74,
            Format::R16Sint => 75,
            Format::R16Sfloat => 76,
            Format::R16g16Unorm => 77,
            Format::R16g16Snorm => 78,
            Format::R16g16Uscaled => 79,
            Format::R16g16Sscaled => 80,
            Format::R16g16Uint => 81,
            Format::R16g16Sint => 82,
            Format::R16g16Sfloat => 83,
            Format::R16g16b16Unorm => 84,
            Format::R16g16b16Snorm => 85,
            Format::R16g16b16Uscaled => 86,
            Format::R16g16b16Sscaled => 87,
            Format::R16g16b16Uint => 88,
            Format::R16g16b16Sint => 89,
            Format::R16g16b16Sfloat => 90,
            Format::R16g16b16a16Unorm => 91,
            Format::R16g16b16a16Snorm => 92,
            Format::R16g16b16a16Uscaled => 93,
            Format::R16g16b16a16Sscaled => 94,
            Format::R16g16b16a16Uint => 95,
            Format::R16g16b16a16Sint => 96,
            Format::R16g16b16a16Sfloat => 97,
            Format::R32Uint => 98,
            Format::R32Sint => 99,
            Format::R32Sfloat => 100,
            Format::R32g32Uint => 101,
            Format::R32g32Sint => 102,
            Format::R32g32Sfloat => 103,
            Format::R32g32b32Uint => 104,
            Format::R32g32b32Sint => 105,
            Format::R32g32b32Sfloat => 106,
            Format::R32g32b32a32Uint => 107,
            Format::R32g32b32a32Sint => 108,
            Format::R32g32b32a32Sfloat => 109,
            Format::R64Uint => 110,
            Format::R64Sint => 111,
            Format::R64Sfloat => 112,
            Format::R64g64Uint => 113,
            Format::R64g64Sint => 114,
            Format::R64g64Sfloat => 115,
            Format::R64g64b64Uint => 116,
            Format::R64g64b64Sint => 117,
            Format::R64g64b64Sfloat => 118,
            Format::R64g64b64a64Uint => 119,
            Format::R64g64b64a64Sint => 120,
            Format::R64g64b64a64Sfloat => 121,
            Format::B10g11r11UfloatPack32 => 122,
            Format::E5b9g9r9UfloatPack32 => 123,
            Format::D16Unorm => 124,
            Format::X8D24UnormPack32 => 125,
            Format::D32Sfloat => 126,
            Format::S8Uint => 127,
            Format::D16UnormS8Uint => 128,
            Format::D24UnormS8Uint => 129,
            Format::D32SfloatS8Uint => 130,
            Format::Bc1RgbUnormBlock => 131,
            Format::Bc1RgbSrgbBlock => 132,
            Format::Bc1RgbaUnormBlock => 133,
            Format::Bc1RgbaSrgbBlock => 134,
            Format::Bc2UnormBlock => 135,
            Format::Bc2SrgbBlock => 136,
            Format::Bc3UnormBlock => 137,
            Format::Bc3SrgbBlock => 138,
            Format::Bc4UnormBlock => 139,
            Format::Bc4SnormBlock => 140,
            Format::Bc5UnormBlock => 141,
            Format::Bc5SnormBlock => 142,
            Format::Bc6hUfloatBlock => 143,
            Format::Bc6hSfloatBlock => 144,
            Format::Bc7UnormBlock => 145,
            Format::Bc7SrgbBlock => 146,
            Format::Etc2R8g8b8UnormBlock => 147,
            Format::Etc2R8g8b8SrgbBlock => 148,
            Format::Etc2R8g8b8a1UnormBlock => 149,
            Format::Etc2R8g8b8a1SrgbBlock => 150,
            Format::Etc2R8g8b8a8UnormBlock => 151,
            Format::Etc2R8g8b8a8SrgbBlock => 152,
            Format::EacR11UnormBlock => 153,
            Format::EacR11SnormBlock => 154,
            Format::EacR11g11UnormBlock => 155,
            Format::EacR11g11SnormBlock => 156,
            Format::Astc4x4UnormBlock => 157,
            Format::Astc4x4SrgbBlock => 158,
            Format::Astc5x4UnormBlock => 159,
            Format::Astc5x4SrgbBlock => 160,
            Format::Astc5x5UnormBlock => 161,
            Format::Astc5x5SrgbBlock => 162,
            Format::Astc6x5UnormBlock => 163,
            Format::Astc6x5SrgbBlock => 164,
            Format::Astc6x6UnormBlock => 165,
            Format::Astc6x6SrgbBlock => 166,
            Format::Astc8x5UnormBlock => 167,
            Format::Astc8x5SrgbBlock => 168,
            Format::Astc8x6UnormBlock => 169,
            Format::Astc8x6SrgbBlock => 170,
            Format::Astc8x8UnormBlock => 171,
            Format::Astc8x8SrgbBlock => 172,
            Format::Astc10x5UnormBlock => 173,
            Format::Astc10x5SrgbBlock => 174,
            Format::Astc10x6UnormBlock => 175,
            Format::Astc10x6SrgbBlock => 176,
            Format::Astc10x8UnormBlock => 177,
            Format::Astc10x8SrgbBlock => 178,
            Format::Astc10x10UnormBlock => 179,
            Format::Astc10x10SrgbBlock => 180,
            Format::Astc12x10UnormBlock => 181,
            Format::Astc12x10SrgbBlock => 182,
            Format::Astc12x12UnormBlock => 183,
            Format::Astc12x12SrgbBlock => 184,
            Format::G8b8g8r8422Unorm => 1000156000,
            Format::B8g8r8g8422Unorm => 1000156001,
            Format::G8B8R83plane420Unorm => 1000156002,
            Format::G8B8r82plane420Unorm => 1000156003,
            Format::G8B8R83plane422Unorm => 1000156004,
            Format::G8B8r82plane422Unorm => 1000156005,
            Format::G8B8R83plane444Unorm => 1000156006,
            Format::R10x6UnormPack16 => 1000156007,
            Format::R10x6g10x6Unorm2pack16 => 1000156008,
            Format::R10x6g10x6b10x6a10x6Unorm4pack16 => 1000156009,
            Format::G10x6b10x6g10x6r10x6422Unorm4pack16 => 1000156010,
            Format::B10x6g10x6r10x6g10x6422Unorm4pack16 => 1000156011,
            Format::G10x6B10x6R10x63plane420Unorm3pack16 => 1000156012,
            Format::G10x6B10x6r10x62plane420Unorm3pack16 => 1000156013,
            Format::G10x6B10x6R10x63plane422Unorm3pack16 => 1000156014,
            Format::G10x6B10x6r10x62plane422Unorm3pack16 => 1000156015,
            Format::G10x6B10x6R10x63plane444Unorm3pack16 => 1000156016,
            Format::R12x4UnormPack16 => 1000156017,
            Format::R12x4g12x4Unorm2pack16 => 1000156018,
            Format::R12x4g12x4b12x4a12x4Unorm4pack16 => 1000156019,
            Format::G12x4b12x4g12x4r12x4422Unorm4pack16 => 1000156020,
            Format::B12x4g12x4r12x4g12x4422Unorm4pack16 => 1000156021,
            Format::G12x4B12x4R12x43plane420Unorm3pack16 => 1000156022,
            Format::G12x4B12x4r12x42plane420Unorm3pack16 => 1000156023,
            Format::G12x4B12x4R12x43plane422Unorm3pack16 => 1000156024,
            Format::G12x4B12x4r12x42plane422Unorm3pack16 => 1000156025,
            Format::G12x4B12x4R12x43plane444Unorm3pack16 => 1000156026,
            Format::G16b16g16r16422Unorm => 1000156027,
            Format::B16g16r16g16422Unorm => 1000156028,
            Format::G16B16R163plane420Unorm => 1000156029,
            Format::G16B16r162plane420Unorm => 1000156030,
            Format::G16B16R163plane422Unorm => 1000156031,
            Format::G16B16r162plane422Unorm => 1000156032,
            Format::G16B16R163plane444Unorm => 1000156033,
            Format::G8B8r82plane444Unorm => 1000330000,
            Format::G10x6B10x6r10x62plane444Unorm3pack16 => 1000330001,
            Format::G12x4B12x4r12x42plane444Unorm3pack16 => 1000330002,
            Format::G16B16r162plane444Unorm => 1000330003,
            Format::A4r4g4b4UnormPack16 => 1000340000,
            Format::A4b4g4r4UnormPack16 => 1000340001,
            Format::Astc4x4SfloatBlock => 1000066000,
            Format::Astc5x4SfloatBlock => 1000066001,
            Format::Astc5x5SfloatBlock => 1000066002,
            Format::Astc6x5SfloatBlock => 1000066003,
            Format::Astc6x6SfloatBlock => 1000066004,
            Format::Astc8x5SfloatBlock => 1000066005,
            Format::Astc8x6SfloatBlock => 1000066006,
            Format::Astc8x8SfloatBlock => 1000066007,
            Format::Astc10x5SfloatBlock => 1000066008,
            Format::Astc10x6SfloatBlock => 1000066009,
            Format::Astc10x8SfloatBlock => 1000066010,
            Format::Astc10x10SfloatBlock => 1000066011,
            Format::Astc12x10SfloatBlock => 1000066012,
            Format::Astc12x12SfloatBlock => 1000066013,
            Format::Pvrtc12bppUnormBlockImg => 1000054000,
            Format::Pvrtc14bppUnormBlockImg => 1000054001,
            Format::Pvrtc22bppUnormBlockImg => 1000054002,
            Format::Pvrtc24bppUnormBlockImg => 1000054003,
            Format::Pvrtc12bppSrgbBlockImg => 1000054004,
            Format::Pvrtc14bppSrgbBlockImg => 1000054005,
            Format::Pvrtc22bppSrgbBlockImg => 1000054006,
            Format::Pvrtc24bppSrgbBlockImg => 1000054007,
            Format::R16g16S105Nv => 1000464000,
            Format::A1b5g5r5UnormPack16Khr => 1000470000,
            Format::A8UnormKhr => 1000470001,
        }
    }

    /// Translate this format to the native engine's integer identifier.
    pub fn code(self) -> (r: u32)
        ensures
            r == self.code_spec(),
    {
        match self {
            Format::Undefined => 0,
            Format::R4g4UnormPack8 => 1,
            Format::R4g4b4a4UnormPack16 => 2,
            Format::B4g4r4a4UnormPack16 => 3,
            Format::R5g6b5UnormPack16 => 4,
            Format::B5g6r5UnormPack16 => 5,
            Format::R5g5b5a1UnormPack16 => 6,
            Format::B5g5r5a1UnormPack16 => 7,
            Format::A1r5g5b5UnormPack16 => 8,
            Format::R8Unorm => 9,
            Format::R8Snorm => 10,
            Format::R8Uscaled => 11,
            Format::R8Sscaled => 12,
            Format::R8Uint => 13,
            Format::R8Sint => 14,
            Format::R8Srgb => 15,
            Format::R8g8Unorm => 16,
            Format::R8g8Snorm => 17,
            Format::R8g8Uscaled => 18,
            Format::R8g8Sscaled => 19,
            Format::R8g8Uint => 20,
            Format::R8g8Sint => 21,
            Format::R8g8Srgb => 22,
            Format::R8g8b8Unorm => 23,
            Format::R8g8b8Snorm => 24,
            Format::R8g8b8Uscaled => 25,
            Format::R8g8b8Sscaled => 26,
            Format::R8g8b8Uint => 27,
            Format::R8g8b8Sint => 28,
            Format::R8g8b8Srgb => 29,
            Format::B8g8r8Unorm => 30,
            Format::B8g8r8Snorm => 31,
            Format::B8g8r8Uscaled => 32,
            Format::B8g8r8Sscaled => 33,
            Format::B8g8r8Uint => 34,
            Format::B8g8r8Sint => 35,
            Format::B8g8r8Srgb => 36,
            Format::R8g8b8a8Unorm => 37,
            Format::R8g8b8a8Snorm => 38,
            Format::R8g8b8a8Uscaled => 39,
            Format::R8g8b8a8Sscaled => 40,
            Format::R8g8b8a8Uint => 41,
            Format::R8g8b8a8Sint => 42,
            Format::R8g8b8a8Srgb => 43,
            Format::B8g8r8a8Unorm => 44,
            Format::B8g8r8a8Snorm => 45,
            Format::B8g8r8a8Uscaled => 46,
            Format::B8g8r8a8Sscaled => 47,
            Format::B8g8r8a8Uint => 48,
            Format::B8g8r8a8Sint => 49,
            Format::B8g8r8a8Srgb => 50,
            Format::A8b8g8r8UnormPack32 => 51,
            Format::A8b8g8r8SnormPack32 => 52,
            Format::A8b8g8r8UscaledPack32 => 53,
            Format::A8b8g8r8SscaledPack32 => 54,
            Format::A8b8g8r8UintPack32 => 55,
            Format::A8b8g8r8SintPack32 => 56,
            Format::A8b8g8r8SrgbPack32 => 57,
            Format::A2r10g10b10UnormPack32 => 58,
            Format::A2r10g10b10SnormPack32 => 59,
            Format::A2r10g10b10UscaledPack32 => 60,
            Format::A2r10g10b10SscaledPack32 => 61,
            Format::A2r10g10b10UintPack32 => 62,
            Format::A2r10g10b10SintPack32 => 63,
            Format::A2b10g10r10UnormPack32 => 64,
            Format::A2b10g10r10SnormPack32 => 65,
            Format::A2b10g10r10UscaledPack32 => 66,
            Format::A2b10g10r10SscaledPack32 => 67,
            Format::A2b10g10r10UintPack32 => 68,
            Format::A2b10g10r10SintPack32 => 69,
            Format::R16Unorm => 70,
            Format::R16Snorm => 71,
            Format::R16Uscaled => 72,
            Format::R16Sscaled => 73,
            Format::R16Uint => 74,
            Format::R16Sint => 75,
            Format::R16Sfloat => 76,
            Format::R16g16Unorm => 77,
            Format::R16g16Snorm => 78,
            Format::R16g16Uscaled => 79,
            Format::R16g16Sscaled => 80,
            Format::R16g16Uint => 81,
            Format::R16g16Sint => 82,
            Format::R16g16Sfloat => 83,
            Format::R16g16b16Unorm => 84,
            Format::R16g16b16Snorm => 85,
            Format::R16g16b16Uscaled => 86,
            Format::R16g16b16Sscaled => 87,
            Format::R16g16b16Uint => 88,
            Format::R16g16b16Sint => 89,
            Format::R16g16b16Sfloat => 90,
            Format::R16g16b16a16Unorm => 91,
            Format::R16g16b16a16Snorm => 92,
            Format::R16g16b16a16Uscaled => 93,
            Format::R16g16b16a16Sscaled => 94,
            Format::R16g16b16a16Uint => 95,
            Format::R16g16b16a16Sint => 96,
            Format::R16g16b16a16Sfloat => 97,
            Format::R32Uint => 98,
            Format::R32Sint => 99,
            Format::R32Sfloat => 100,
            Format::R32g32Uint => 101,
            Format::R32g32Sint => 102,
            Format::R32g32Sfloat => 103,
            Format::R32g32b32Uint => 104,
            Format::R32g32b32Sint => 105,
            Format::R32g32b32Sfloat => 106,
            Format::R32g32b32a32Uint => 107,
            Format::R32g32b32a32Sint => 108,
            Format::R32g32b32a32Sfloat => 109,
            Format::R64Uint => 110,
            Format::R64Sint => 111,
            Format::R64Sfloat => 112,
            Format::R64g64Uint => 113,
            Format::R64g64Sint => 114,
            Format::R64g64Sfloat => 115,
            Format::R64g64b64Uint => 116,
            Format::R64g64b64Sint => 117,
            Format::R64g64b64Sfloat => 118,
            Format::R64g64b64a64Uint => 119,
            Format::R64g64b64a64Sint => 120,
            Format::R64g64b64a64Sfloat => 121,
            Format::B10g11r11UfloatPack32 => 122,
            Format::E5b9g9r9UfloatPack32 => 123,
            Format::D16Unorm => 124,
            Format::X8D24UnormPack32 => 125,
            Format::D32Sfloat => 126,
            Format::S8Uint => 127,
            Format::D16UnormS8Uint => 128,
            Format::D24UnormS8Uint => 129,
            Format::D32SfloatS8Uint => 130,
            Format::Bc1RgbUnormBlock => 131,
            Format::Bc1RgbSrgbBlock => 132,
            Format::Bc1RgbaUnormBlock => 133,
            Format::Bc1RgbaSrgbBlock => 134,
            Format::Bc2UnormBlock => 135,
            Format::Bc2SrgbBlock => 136,
            Format::Bc3UnormBlock => 137,
            Format::Bc3SrgbBlock => 138,
            Format::Bc4UnormBlock => 139,
            Format::Bc4SnormBlock => 140,
            Format::Bc5UnormBlock => 141,
            Format::Bc5SnormBlock => 142,
            Format::Bc6hUfloatBlock => 143,
            Format::Bc6hSfloatBlock => 144,
            Format::Bc7UnormBlock => 145,
            Format::Bc7SrgbBlock => 146,
            Format::Etc2R8g8b8UnormBlock => 147,
            Format::Etc2R8g8b8SrgbBlock => 148,
            Format::Etc2R8g8b8a1UnormBlock => 149,
            Format::Etc2R8g8b8a1SrgbBlock => 150,
            Format::Etc2R8g8b8a8UnormBlock => 151,
            Format::Etc2R8g8b8a8SrgbBlock => 152,
            Format::EacR11UnormBlock => 153,
            Format::EacR11SnormBlock => 154,
            Format::EacR11g11UnormBlock => 155,
            Format::EacR11g11SnormBlock => 156,
            Format::Astc4x4UnormBlock => 157,
            Format::Astc4x4SrgbBlock => 158,
            Format::Astc5x4UnormBlock => 159,
            Format::Astc5x4SrgbBlock => 160,
            Format::Astc5x5UnormBlock => 161,
            Format::Astc5x5SrgbBlock => 162,
            Format::Astc6x5UnormBlock => 163,
            Format::Astc6x5SrgbBlock => 164,
            Format::Astc6x6UnormBlock => 165,
            Format::Astc6x6SrgbBlock => 166,
            Format::Astc8x5UnormBlock => 167,
            Format::Astc8x5SrgbBlock => 168,
            Format::Astc8x6UnormBlock => 169,
            Format::Astc8x6SrgbBlock => 170,
            Format::Astc8x8UnormBlock => 171,
            Format::Astc8x8SrgbBlock => 172,
            Format::Astc10x5UnormBlock => 173,
            Format::Astc10x5SrgbBlock => 174,
            Format::Astc10x6UnormBlock => 175,
            Format::Astc10x6SrgbBlock => 176,
            Format::Astc10x8UnormBlock => 177,
            Format::Astc10x8SrgbBlock => 178,
            Format::Astc10x10UnormBlock => 179,
            Format::Astc10x10SrgbBlock => 180,
            Format::Astc12x10UnormBlock => 181,
            Format::Astc12x10SrgbBlock => 182,
            Format::Astc12x12UnormBlock => 183,
            Format::Astc12x12SrgbBlock => 184,
            Format::G8b8g8r8422Unorm => 1000156000,
            Format::B8g8r8g8422Unorm => 1000156001,
            Format::G8B8R83plane420Unorm => 1000156002,
            Format::G8B8r82plane420Unorm => 1000156003,
            Format::G8B8R83plane422Unorm => 1000156004,
            Format::G8B8r82plane422Unorm => 1000156005,
            Format::G8B8R83plane444Unorm => 1000156006,
            Format::R10x6UnormPack16 => 1000156007,
            Format::R10x6g10x6Unorm2pack16 => 1000156008,
            Format::R10x6g10x6b10x6a10x6Unorm4pack16 => 1000156009,
            Format::G10x6b10x6g10x6r10x6422Unorm4pack16 => 1000156010,
            Format::B10x6g10x6r10x6g10x6422Unorm4pack16 => 1000156011,
            Format::G10x6B10x6R10x63plane420Unorm3pack16 => 1000156012,
            Format::G10x6B10x6r10x62plane420Unorm3pack16 => 1000156013,
            Format::G10x6B10x6R10x63plane422Unorm3pack16 => 1000156014,
            Format::G10x6B10x6r10x62plane422Unorm3pack16 => 1000156015,
            Format::G10x6B10x6R10x63plane444Unorm3pack16 => 1000156016,
            Format::R12x4UnormPack16 => 1000156017,
            Format::R12x4g12x4Unorm2pack16 => 1000156018,
            Format::R12x4g12x4b12x4a12x4Unorm4pack16 => 1000156019,
            Format::G12x4b12x4g12x4r12x4422Unorm4pack16 => 1000156020,
            Format::B12x4g12x4r12x4g12x4422Unorm4pack16 => 1000156021,
            Format::G12x4B12x4R12x43plane420Unorm3pack16 => 1000156022,
            Format::G12x4B12x4r12x42plane420Unorm3pack16 => 1000156023,
            Format::G12x4B12x4R12x43plane422Unorm3pack16 => 1000156024,
            Format::G12x4B12x4r12x42plane422Unorm3pack16 => 1000156025,
            Format::G12x4B12x4R12x43plane444Unorm3pack16 => 1000156026,
            Format::G16b16g16r16422Unorm => 1000156027,
            Format::B16g16r16g16422Unorm => 1000156028,
            Format::G16B16R163plane420Unorm => 1000156029,
            Format::G16B16r162plane420Unorm => 1000156030,
            Format::G16B16R163plane422Unorm => 1000156031,
            Format::G16B16r162plane422Unorm => 1000156032,
            Format::G16B16R163plane444Unorm => 1000156033,
            Format::G8B8r82plane444Unorm => 1000330000,
            Format::G10x6B10x6r10x62plane444Unorm3pack16 => 1000330001,
            Format::G12x4B12x4r12x42plane444Unorm3pack16 => 1000330002,
            Format::G16B16r162plane444Unorm => 1000330003,
            Format::A4r4g4b4UnormPack16 => 1000340000,
            Format::A4b4g4r4UnormPack16 => 1000340001,
            Format::Astc4x4SfloatBlock => 1000066000,
            Format::Astc5x4SfloatBlock => 1000066001,
            Format::Astc5x5SfloatBlock => 1000066002,
            Format::Astc6x5SfloatBlock => 1000066003,
            Format::Astc6x6SfloatBlock => 1000066004,
            Format::Astc8x5SfloatBlock => 1000066005,
            Format::Astc8x6SfloatBlock => 1000066006,
            Format::Astc8x8SfloatBlock => 1000066007,
            Format::Astc10x5SfloatBlock => 1000066008,
            Format::Astc10x6SfloatBlock => 1000066009,
            Format::Astc10x8SfloatBlock => 1000066010,
            Format::Astc10x10SfloatBlock => 1000066011,
            Format::Astc12x10SfloatBlock => 1000066012,
            Format::Astc12x12SfloatBlock => 1000066013,
            Format::Pvrtc12bppUnormBlockImg => 1000054000,
            Format::Pvrtc14bppUnormBlockImg => 1000054001,
            Format::Pvrtc22bppUnormBlockImg => 1000054002,
            Format::Pvrtc24bppUnormBlockImg => 1000054003,
            Format::Pvrtc12bppSrgbBlockImg => 1000054004,
            Format::Pvrtc14bppSrgbBlockImg => 1000054005,
            Format::Pvrtc22bppSrgbBlockImg => 1000054006,
            Format::Pvrtc24bppSrgbBlockImg => 1000054007,
            Format::R16g16S105Nv => 1000464000,
            Format::A1b5g5r5UnormPack16Khr => 1000470000,
            Format::A8UnormKhr => 1000470001,
        }
    }

    /// The named format with the given native identifier, if there is one.
    pub open spec fn from_code_spec(code: u32) -> Option<Format> {
        match code {
            0u32 => Some(Format::Undefined),
            1u32 => Some(Format::R4g4UnormPack8),
            2u32 => Some(Format::R4g4b4a4UnormPack16),
            3u32 => Some(Format::B4g4r4a4UnormPack16),
            4u32 => Some(Format::R5g6b5UnormPack16),
            5u32 => Some(Format::B5g6r5UnormPack16),
            6u32 => Some(Format::R5g5b5a1UnormPack16),
            7u32 => Some(Format::B5g5r5a1UnormPack16),
            8u32 => Some(Format::A1r5g5b5UnormPack16),
            9u32 => Some(Format::R8Unorm),
            10u32 => Some(Format::R8Snorm),
            11u32 => Some(Format::R8Uscaled),
            12u32 => Some(Format::R8Sscaled),
            13u32 => Some(Format::R8Uint),
            14u32 => Some(Format::R8Sint),
            15u32 => Some(Format::R8Srgb),
            16u32 => Some(Format::R8g8Unorm),
            17u32 => Some(Format::R8g8Snorm),
            18u32 => Some(Format::R8g8Uscaled),
            19u32 => Some(Format::R8g8Sscaled),
            20u32 => Some(Format::R8g8Uint),
            21u32 => Some(Format::R8g8Sint),
            22u32 => Some(Format::R8g8Srgb),
            23u32 => Some(Format::R8g8b8Unorm),
            24u32 => Some(Format::R8g8b8Snorm),
            25u32 => Some(Format::R8g8b8Uscaled),
            26u32 => Some(Format::R8g8b8Sscaled),
            27u32 => Some(Format::R8g8b8Uint),
            28u32 => Some(Format::R8g8b8Sint),
            29u32 => Some(Format::R8g8b8Srgb),
            30u32 => Some(Format::B8g8r8Unorm),
            31u32 => Some(Format::B8g8r8Snorm),
            32u32 => Some(Format::B8g8r8Uscaled),
            33u32 => Some(Format::B8g8r8Sscaled),
            34u32 => Some(Format::B8g8r8Uint),
            35u32 => Some(Format::B8g8r8Sint),
            36u32 => Some(Format::B8g8r8Srgb),
            37u32 => Some(Format::R8g8b8a8Unorm),
            38u32 => Some(Format::R8g8b8a8Snorm),
            39u32 => Some(Format::R8g8b8a8Uscaled),
            40u32 => Some(Format::R8g8b8a8Sscaled),
            41u32 => Some(Format::R8g8b8a8Uint),
            42u32 => Some(Format::R8g8b8a8Sint),
            43u32 => Some(Format::R8g8b8a8Srgb),
            44u32 => Some(Format::B8g8r8a8Unorm),
            45u32 => Some(Format::B8g8r8a8Snorm),
            46u32 => Some(Format::B8g8r8a8Uscaled),
            47u32 => Some(Format::B8g8r8a8Sscaled),
            48u32 => Some(Format::B8g8r8a8Uint),
            49u32 => Some(Format::B8g8r8a8Sint),
            50u32 => Some(Format::B8g8r8a8Srgb),
            51u32 => Some(Format::A8b8g8r8UnormPack32),
            52u32 => Some(Format::A8b8g8r8SnormPack32),
            53u32 => Some(Format::A8b8g8r8UscaledPack32),
            54u32 => Some(Format::A8b8g8r8SscaledPack32),
            55u32 => Some(Format::A8b8g8r8UintPack32),
            56u32 => Some(Format::A8b8g8r8SintPack32),
            57u32 => Some(Format::A8b8g8r8SrgbPack32),
            58u32 => Some(Format::A2r10g10b10UnormPack32),
            59u32 => Some(Format::A2r10g10b10SnormPack32),
            60u32 => Some(Format::A2r10g10b10UscaledPack32),
            61u32 => Some(Format::A2r10g10b10SscaledPack32),
            62u32 => Some(Format::A2r10g10b10UintPack32),
            63u32 => Some(Format::A2r10g10b10SintPack32),
            64u32 => Some(Format::A2b10g10r10UnormPack32),
            65u32 => Some(Format::A2b10g10r10SnormPack32),
            66u32 => Some(Format::A2b10g10r10UscaledPack32),
            67u32 => Some(Format::A2b10g10r10SscaledPack32),
            68u32 => Some(Format::A2b10g10r10UintPack32),
            69u32 => Some(Format::A2b10g10r10SintPack32),
            70u32 => Some(Format::R16Unorm),
            71u32 => Some(Format::R16Snorm),
            72u32 => Some(Format::R16Uscaled),
            73u32 => Some(Format::R16Sscaled),
            74u32 => Some(Format::R16Uint),
            75u32 => Some(Format::R16Sint),
            76u32 => Some(Format::R16Sfloat),
            77u32 => Some(Format::R16g16Unorm),
            78u32 => Some(Format::R16g16Snorm),
            79u32 => Some(Format::R16g16Uscaled),
            80u32 => Some(Format::R16g16Sscaled),
            81u32 => Some(Format::R16g16Uint),
            82u32 => Some(Format::R16g16Sint),
            83u32 => Some(Format::R16g16Sfloat),
            84u32 => Some(Format::R16g16b16Unorm),
            85u32 => Some(Format::R16g16b16Snorm),
            86u32 => Some(Format::R16g16b16Uscaled),
            87u32 => Some(Format::R16g16b16Sscaled),
            88u32 => Some(Format::R16g16b16Uint),
            89u32 => Some(Format::R16g16b16Sint),
            90u32 => Some(Format::R16g16b16Sfloat),
            91u32 => Some(Format::R16g16b16a16Unorm),
            92u32 => Some(Format::R16g16b16a16Snorm),
            93u32 => Some(Format::R16g16b16a16Uscaled),
            94u32 => Some(Format::R16g16b16a16Sscaled),
            95u32 => Some(Format::R16g16b16a16Uint),
            96u32 => Some(Format::R16g16b16a16Sint),
            97u32 => Some(Format::R16g16b16a16Sfloat),
            98u32 => Some(Format::R32Uint),
            99u32 => Some(Format::R32Sint),
            100u32 => Some(Format::R32Sfloat),
            101u32 => Some(Format::R32g32Uint),
            102u32 => Some(Format::R32g32Sint),
            103u32 => Some(Format::R32g32Sfloat),
            104u32 => Some(Format::R32g32b32Uint),
            105u32 => Some(Format::R32g32b32Sint),
            106u32 => Some(Format::R32g32b32Sfloat),
            107u32 => Some(Format::R32g32b32a32Uint),
            108u32 => Some(Format::R32g32b32a32Sint),
            109u32 => Some(Format::R32g32b32a32Sfloat),
            110u32 => Some(Format::R64Uint),
            111u32 => Some(Format::R64Sint),
            112u32 => Some(Format::R64Sfloat),
            113u32 => Some(Format::R64g64Uint),
            114u32 => Some(Format::R64g64Sint),
            115u32 => Some(Format::R64g64Sfloat),
            116u32 => Some(Format::R64g64b64Uint),
            117u32 => Some(Format::R64g64b64Sint),
            118u32 => Some(Format::R64g64b64Sfloat),
            119u32 => Some(Format::R64g64b64a64Uint),
            120u32 => Some(Format::R64g64b64a64Sint),
            121u32 => Some(Format::R64g64b64a64Sfloat),
            122u32 => Some(Format::B10g11r11UfloatPack32),
            123u32 => Some(Format::E5b9g9r9UfloatPack32),
            124u32 => Some(Format::D16Unorm),
            125u32 => Some(Format::X8D24UnormPack32),
            126u32 => Some(Format::D32Sfloat),
            127u32 => Some(Format::S8Uint),
            128u32 => Some(Format::D16UnormS8Uint),
            129u32 => Some(Format::D24UnormS8Uint),
            130u32 => Some(Format::D32SfloatS8Uint),
            131u32 => Some(Format::Bc1RgbUnormBlock),
            132u32 => Some(Format::Bc1RgbSrgbBlock),
            133u32 => Some(Format::Bc1RgbaUnormBlock),
            134u32 => Some(Format::Bc1RgbaSrgbBlock),
            135u32 => Some(Format::Bc2UnormBlock),
            136u32 => Some(Format::Bc2SrgbBlock),
            137u32 => Some(Format::Bc3UnormBlock),
            138u32 => Some(Format::Bc3SrgbBlock),
            139u32 => Some(Format::Bc4UnormBlock),
            140u32 => Some(Format::Bc4SnormBlock),
            141u32 => Some(Format::Bc5UnormBlock),
            142u32 => Some(Format::Bc5SnormBlock),
            143u32 => Some(Format::Bc6hUfloatBlock),
            144u32 => Some(Format::Bc6hSfloatBlock),
            145u32 => Some(Format::Bc7UnormBlock),
            146u32 => Some(Format::Bc7SrgbBlock),
            147u32 => Some(Format::Etc2R8g8b8UnormBlock),
            148u32 => Some(Format::Etc2R8g8b8SrgbBlock),
            149u32 => Some(Format::Etc2R8g8b8a1UnormBlock),
            150u32 => Some(Format::Etc2R8g8b8a1SrgbBlock),
            151u32 => Some(Format::Etc2R8g8b8a8UnormBlock),
            152u32 => Some(Format::Etc2R8g8b8a8SrgbBlock),
            153u32 => Some(Format::EacR11UnormBlock),
            154u32 => Some(Format::EacR11SnormBlock),
            155u32 => Some(Format::EacR11g11UnormBlock),
            156u32 => Some(Format::EacR11g11SnormBlock),
            157u32 => Some(Format::Astc4x4UnormBlock),
            158u32 => Some(Format::Astc4x4SrgbBlock),
            159u32 => Some(Format::Astc5x4UnormBlock),
            160u32 => Some(Format::Astc5x4SrgbBlock),
            161u32 => Some(Format::Astc5x5UnormBlock),
            162u32 => Some(Format::Astc5x5SrgbBlock),
            163u32 => Some(Format::Astc6x5UnormBlock),
            164u32 => Some(Format::Astc6x5SrgbBlock),
            165u32 => Some(Format::Astc6x6UnormBlock),
            166u32 => Some(Format::Astc6x6SrgbBlock),
            167u32 => Some(Format::Astc8x5UnormBlock),
            168u32 => Some(Format::Astc8x5SrgbBlock),
            169u32 => Some(Format::Astc8x6UnormBlock),
            170u32 => Some(Format::Astc8x6SrgbBlock),
            171u32 => Some(Format::Astc8x8UnormBlock),
            172u32 => Some(Format::Astc8x8SrgbBlock),
            173u32 => Some(Format::Astc10x5UnormBlock),
            174u32 => Some(Format::Astc10x5SrgbBlock),
            175u32 => Some(Format::Astc10x6UnormBlock),
            176u32 => Some(Format::Astc10x6SrgbBlock),
            177u32 => Some(Format::Astc10x8UnormBlock),
            178u32 => Some(Format::Astc10x8SrgbBlock),
            179u32 => Some(Format::Astc10x10UnormBlock),
            180u32 => Some(Format::Astc10x10SrgbBlock),
            181u32 => Some(Format::Astc12x10UnormBlock),
            182u32 => Some(Format::Astc12x10SrgbBlock),
            183u32 => Some(Format::Astc12x12UnormBlock),
            184u32 => Some(Format::Astc12x12SrgbBlock),
            1000156000u32 => Some(Format::G8b8g8r8422Unorm),
            1000156001u32 => Some(Format::B8g8r8g8422Unorm),
            1000156002u32 => Some(Format::G8B8R83plane420Unorm),
            1000156003u32 => Some(Format::G8B8r82plane420Unorm),
            1000156004u32 => Some(Format::G8B8R83plane422Unorm),
            1000156005u32 => Some(Format::G8B8r82plane422Unorm),
            1000156006u32 => Some(Format::G8B8R83plane444Unorm),
            1000156007u32 => Some(Format::R10x6UnormPack16),
            1000156008u32 => Some(Format::R10x6g10x6Unorm2pack16),
            1000156009u32 => Some(Format::R10x6g10x6b10x6a10x6Unorm4pack16),
            1000156010u32 => Some(Format::G10x6b10x6g10x6r10x6422Unorm4pack16),
            1000156011u32 => Some(Format::B10x6g10x6r10x6g10x6422Unorm4pack16),
            1000156012u32 => Some(Format::G10x6B10x6R10x63plane420Unorm3pack16),
            1000156013u32 => Some(Format::G10x6B10x6r10x62plane420Unorm3pack16),
            1000156014u32 => Some(Format::G10x6B10x6R10x63plane422Unorm3pack16),
            1000156015u32 => Some(Format::G10x6B10x6r10x62plane422Unorm3pack16),
            1000156016u32 => Some(Format::G10x6B10x6R10x63plane444Unorm3pack16),
            1000156017u32 => Some(Format::R12x4UnormPack16),
            1000156018u32 => Some(Format::R12x4g12x4Unorm2pack16),
            1000156019u32 => Some(Format::R12x4g12x4b12x4a12x4Unorm4pack16),
            1000156020u32 => Some(Format::G12x4b12x4g12x4r12x4422Unorm4pack16),
            1000156021u32 => Some(Format::B12x4g12x4r12x4g12x4422Unorm4pack16),
            1000156022u32 => Some(Format::G12x4B12x4R12x43plane420Unorm3pack16),
            1000156023u32 => Some(Format::G12x4B12x4r12x42plane420Unorm3pack16),
            1000156024u32 => Some(Format::G12x4B12x4R12x43plane422Unorm3pack16),
            1000156025u32 => Some(Format::G12x4B12x4r12x42plane422Unorm3pack16),
            1000156026u32 => Some(Format::G12x4B12x4R12x43plane444Unorm3pack16),
            1000156027u32 => Some(Format::G16b16g16r16422Unorm),
            1000156028u32 => Some(Format::B16g16r16g16422Unorm),
            1000156029u32 => Some(Format::G16B16R163plane420Unorm),
            1000156030u32 => Some(Format::G16B16r162plane420Unorm),
            1000156031u32 => Some(Format::G16B16R163plane422Unorm),
            1000156032u32 => Some(Format::G16B16r162plane422Unorm),
            1000156033u32 => Some(Format::G16B16R163plane444Unorm),
            1000330000u32 => Some(Format::G8B8r82plane444Unorm),
            1000330001u32 => Some(Format::G10x6B10x6r10x62plane444Unorm3pack16),
            1000330002u32 => Some(Format::G12x4B12x4r12x42plane444Unorm3pack16),
            1000330003u32 => Some(Format::G16B16r162plane444Unorm),
            1000340000u32 => Some(Format::A4r4g4b4UnormPack16),
            1000340001u32 => Some(Format::A4b4g4r4UnormPack16),
            1000066000u32 => Some(Format::Astc4x4SfloatBlock),
            1000066001u32 => Some(Format::Astc5x4SfloatBlock),
            1000066002u32 => Some(Format::Astc5x5SfloatBlock),
            1000066003u32 => Some(Format::Astc6x5SfloatBlock),
            1000066004u32 => Some(Format::Astc6x6SfloatBlock),
            1000066005u32 => Some(Format::Astc8x5SfloatBlock),
            1000066006u32 => Some(Format::Astc8x6SfloatBlock),
            1000066007u32 => Some(Format::Astc8x8SfloatBlock),
            1000066008u32 => Some(Format::Astc10x5SfloatBlock),
            1000066009u32 => Some(Format::Astc10x6SfloatBlock),
            1000066010u32 => Some(Format::Astc10x8SfloatBlock),
            1000066011u32 => Some(Format::Astc10x10SfloatBlock),
            1000066012u32 => Some(Format::Astc12x10SfloatBlock),
            1000066013u32 => Some(Format::Astc12x12SfloatBlock),
            1000054000u32 => Some(Format::Pvrtc12bppUnormBlockImg),
            1000054001u32 => Some(Format::Pvrtc14bppUnormBlockImg),
            1000054002u32 => Some(Format::Pvrtc22bppUnormBlockImg),
            1000054003u32 => Some(Format::Pvrtc24bppUnormBlockImg),
            1000054004u32 => Some(Format::Pvrtc12bppSrgbBlockImg),
            1000054005u32 => Some(Format::Pvrtc14bppSrgbBlockImg),
            1000054006u32 => Some(Format::Pvrtc22bppSrgbBlockImg),
            1000054007u32 => Some(Format::Pvrtc24bppSrgbBlockImg),
            1000464000u32 => Some(Format::R16g16S105Nv),
            1000470000u32 => Some(Format::A1b5g5r5UnormPack16Khr),
            1000470001u32 => Some(Format::A8UnormKhr),
            _ => None,
        }
    }

    /// Recover a named format from the native engine's integer identifier.
    pub fn from_code(code: u32) -> (r: Option<Format>)
        ensures
            r == Self::from_code_spec(code),
    {
        match code {
            0u32 => Some(Format::Undefined),
            1u32 => Some(Format::R4g4UnormPack8),
            2u32 => Some(Format::R4g4b4a4UnormPack16),
            3u32 => Some(Format::B4g4r4a4UnormPack16),
            4u32 => Some(Format::R5g6b5UnormPack16),
            5u32 => Some(Format::B5g6r5UnormPack16),
            6u32 => Some(Format::R5g5b5a1UnormPack16),
            7u32 => Some(Format::B5g5r5a1UnormPack16),
            8u32 => Some(Format::A1r5g5b5UnormPack16),
            9u32 => Some(Format::R8Unorm),
            10u32 => Some(Format::R8Snorm),
            11u32 => Some(Format::R8Uscaled),
            12u32 => Some(Format::R8Sscaled),
            13u32 => Some(Format::R8Uint),
            14u32 => Some(Format::R8Sint),
            15u32 => Some(Format::R8Srgb),
            16u32 => Some(Format::R8g8Unorm),
            17u32 => Some(Format::R8g8Snorm),
            18u32 => Some(Format::R8g8Uscaled),
            19u32 => Some(Format::R8g8Sscaled),
            20u32 => Some(Format::R8g8Uint),
            21u32 => Some(Format::R8g8Sint),
            22u32 => Some(Format::R8g8Srgb),
            23u32 => Some(Format::R8g8b8Unorm),
            24u32 => Some(Format::R8g8b8Snorm),
            25u32 => Some(Format::R8g8b8Uscaled),
            26u32 => Some(Format::R8g8b8Sscaled),
            27u32 => Some(Format::R8g8b8Uint),
            28u32 => Some(Format::R8g8b8Sint),
            29u32 => Some(Format::R8g8b8Srgb),
            30u32 => Some(Format::B8g8r8Unorm),
            31u32 => Some(Format::B8g8r8Snorm),
            32u32 => Some(Format::B8g8r8Uscaled),
            33u32 => Some(Format::B8g8r8Sscaled),
            34u32 => Some(Format::B8g8r8Uint),
            35u32 => Some(Format::B8g8r8Sint),
            36u32 => Some(Format::B8g8r8Srgb),
            37u32 => Some(Format::R8g8b8a8Unorm),
            38u32 => Some(Format::R8g8b8a8Snorm),
            39u32 => Some(Format::R8g8b8a8Uscaled),
            40u32 => Some(Format::R8g8b8a8Sscaled),
            41u32 => Some(Format::R8g8b8a8Uint),
            42u32 => Some(Format::R8g8b8a8Sint),
            43u32 => Some(Format::R8g8b8a8Srgb),
            44u32 => Some(Format::B8g8r8a8Unorm),
            45u32 => Some(Format::B8g8r8a8Snorm),
            46u32 => Some(Format::B8g8r8a8Uscaled),
            47u32 => Some(Format::B8g8r8a8Sscaled),
            48u32 => Some(Format::B8g8r8a8Uint),
            49u32 => Some(Format::B8g8r8a8Sint),
            50u32 => Some(Format::B8g8r8a8Srgb),
            51u32 => Some(Format::A8b8g8r8UnormPack32),
            52u32 => Some(Format::A8b8g8r8SnormPack32),
            53u32 => Some(Format::A8b8g8r8UscaledPack32),
            54u32 => Some(Format::A8b8g8r8SscaledPack32),
            55u32 => Some(Format::A8b8g8r8UintPack32),
            56u32 => Some(Format::A8b8g8r8SintPack32),
            57u32 => Some(Format::A8b8g8r8SrgbPack32),
            58u32 => Some(Format::A2r10g10b10UnormPack32),
            59u32 => Some(Format::A2r10g10b10SnormPack32),
            60u32 => Some(Format::A2r10g10b10UscaledPack32),
            61u32 => Some(Format::A2r10g10b10SscaledPack32),
            62u32 => Some(Format::A2r10g10b10UintPack32),
            63u32 => Some(Format::A2r10g10b10SintPack32),
            64u32 => Some(Format::A2b10g10r10UnormPack32),
            65u32 => Some(Format::A2b10g10r10SnormPack32),
            66u32 => Some(Format::A2b10g10r10UscaledPack32),
            67u32 => Some(Format::A2b10g10r10SscaledPack32),
            68u32 => Some(Format::A2b10g10r10UintPack32),
            69u32 => Some(Format::A2b10g10r10SintPack32),
            70u32 => Some(Format::R16Unorm),
            71u32 => Some(Format::R16Snorm),
            72u32 => Some(Format::R16Uscaled),
            73u32 => Some(Format::R16Sscaled),
            74u32 => Some(Format::R16Uint),
            75u32 => Some(Format::R16Sint),
            76u32 => Some(Format::R16Sfloat),
            77u32 => Some(Format::R16g16Unorm),
            78u32 => Some(Format::R16g16Snorm),
            79u32 => Some(Format::R16g16Uscaled),
            80u32 => Some(Format::R16g16Sscaled),
            81u32 => Some(Format::R16g16Uint),
            82u32 => Some(Format::R16g16Sint),
            83u32 => Some(Format::R16g16Sfloat),
            84u32 => Some(Format::R16g16b16Unorm),
            85u32 => Some(Format::R16g16b16Snorm),
            86u32 => Some(Format::R16g16b16Uscaled),
            87u32 => Some(Format::R16g16b16Sscaled),
            88u32 => Some(Format::R16g16b16Uint),
            89u32 => Some(Format::R16g16b16Sint),
            90u32 => Some(Format::R16g16b16Sfloat),
            91u32 => Some(Format::R16g16b16a16Unorm),
            92u32 => Some(Format::R16g16b16a16Snorm),
            93u32 => Some(Format::R16g16b16a16Uscaled),
            94u32 => Some(Format::R16g16b16a16Sscaled),
            95u32 => Some(Format::R16g16b16a16Uint),
            96u32 => Some(Format::R16g16b16a16Sint),
            97u32 => Some(Format::R16g16b16a16Sfloat),
            98u32 => Some(Format::R32Uint),
            99u32 => Some(Format::R32Sint),
            100u32 => Some(Format::R32Sfloat),
            101u32 => Some(Format::R32g32Uint),
            102u32 => Some(Format::R32g32Sint),
            103u32 => Some(Format::R32g32Sfloat),
            104u32 => Some(Format::R32g32b32Uint),
            105u32 => Some(Format::R32g32b32Sint),
            106u32 => Some(Format::R32g32b32Sfloat),
            107u32 => Some(Format::R32g32b32a32Uint),
            108u32 => Some(Format::R32g32b32a32Sint),
            109u32 => Some(Format::R32g32b32a32Sfloat),
            110u32 => Some(Format::R64Uint),
            111u32 => Some(Format::R64Sint),
            112u32 => Some(Format::R64Sfloat),
            113u32 => Some(Format::R64g64Uint),
            114u32 => Some(Format::R64g64Sint),
            115u32 => Some(Format::R64g64Sfloat),
            116u32 => Some(Format::R64g64b64Uint),
            117u32 => Some(Format::R64g64b64Sint),
            118u32 => Some(Format::R64g64b64Sfloat),
            119u32 => Some(Format::R64g64b64a64Uint),
            120u32 => Some(Format::R64g64b64a64Sint),
            121u32 => Some(Format::R64g64b64a64Sfloat),
            122u32 => Some(Format::B10g11r11UfloatPack32),
            123u32 => Some(Format::E5b9g9r9UfloatPack32),
            124u32 => Some(Format::D16Unorm),
            125u32 => Some(Format::X8D24UnormPack32),
            126u32 => Some(Format::D32Sfloat),
            127u32 => Some(Format::S8Uint),
            128u32 => Some(Format::D16UnormS8Uint),
            129u32 => Some(Format::D24UnormS8Uint),
            130u32 => Some(Format::D32SfloatS8Uint),
            131u32 => Some(Format::Bc1RgbUnormBlock),
            132u32 => Some(Format::Bc1RgbSrgbBlock),
            133u32 => Some(Format::Bc1RgbaUnormBlock),
            134u32 => Some(Format::Bc1RgbaSrgbBlock),
            135u32 => Some(Format::Bc2UnormBlock),
            136u32 => Some(Format::Bc2SrgbBlock),
            137u32 => Some(Format::Bc3UnormBlock),
            138u32 => Some(Format::Bc3SrgbBlock),
            139u32 => Some(Format::Bc4UnormBlock),
            140u32 => Some(Format::Bc4SnormBlock),
            141u32 => Some(Format::Bc5UnormBlock),
            142u32 => Some(Format::Bc5SnormBlock),
            143u32 => Some(Format::Bc6hUfloatBlock),
            144u32 => Some(Format::Bc6hSfloatBlock),
            145u32 => Some(Format::Bc7UnormBlock),
            146u32 => Some(Format::Bc7SrgbBlock),
            147u32 => Some(Format::Etc2R8g8b8UnormBlock),
            148u32 => Some(Format::Etc2R8g8b8SrgbBlock),
            149u32 => Some(Format::Etc2R8g8b8a1UnormBlock),
            150u32 => Some(Format::Etc2R8g8b8a1SrgbBlock),
            151u32 => Some(Format::Etc2R8g8b8a8UnormBlock),
            152u32 => Some(Format::Etc2R8g8b8a8SrgbBlock),
            153u32 => Some(Format::EacR11UnormBlock),
            154u32 => Some(Format::EacR11SnormBlock),
            155u32 => Some(Format::EacR11g11UnormBlock),
            156u32 => Some(Format::EacR11g11SnormBlock),
            157u32 => Some(Format::Astc4x4UnormBlock),
            158u32 => Some(Format::Astc4x4SrgbBlock),
            159u32 => Some(Format::Astc5x4UnormBlock),
            160u32 => Some(Format::Astc5x4SrgbBlock),
            161u32 => Some(Format::Astc5x5UnormBlock),
            162u32 => Some(Format::Astc5x5SrgbBlock),
            163u32 => Some(Format::Astc6x5UnormBlock),
            164u32 => Some(Format::Astc6x5SrgbBlock),
            165u32 => Some(Format::Astc6x6UnormBlock),
            166u32 => Some(Format::Astc6x6SrgbBlock),
            167u32 => Some(Format::Astc8x5UnormBlock),
            168u32 => Some(Format::Astc8x5SrgbBlock),
            169u32 => Some(Format::Astc8x6UnormBlock),
            170u32 => Some(Format::Astc8x6SrgbBlock),
            171u32 => Some(Format::Astc8x8UnormBlock),
            172u32 => Some(Format::Astc8x8SrgbBlock),
            173u32 => Some(Format::Astc10x5UnormBlock),
            174u32 => Some(Format::Astc10x5SrgbBlock),
            175u32 => Some(Format::Astc10x6UnormBlock),
            176u32 => Some(Format::Astc10x6SrgbBlock),
            177u32 => Some(Format::Astc10x8UnormBlock),
            178u32 => Some(Format::Astc10x8SrgbBlock),
            179u32 => Some(Format::Astc10x10UnormBlock),
            180u32 => Some(Format::Astc10x10SrgbBlock),
            181u32 => Some(Format::Astc12x10UnormBlock),
            182u32 => Some(Format::Astc12x10SrgbBlock),
            183u32 => Some(Format::Astc12x12UnormBlock),
            184u32 => Some(Format::Astc12x12SrgbBlock),
            1000156000u32 => Some(Format::G8b8g8r8422Unorm),
            1000156001u32 => Some(Format::B8g8r8g8422Unorm),
            1000156002u32 => Some(Format::G8B8R83plane420Unorm),
            1000156003u32 => Some(Format::G8B8r82plane420Unorm),
            1000156004u32 => Some(Format::G8B8R83plane422Unorm),
            1000156005u32 => Some(Format::G8B8r82plane422Unorm),
            1000156006u32 => Some(Format::G8B8R83plane444Unorm),
            1000156007u32 => Some(Format::R10x6UnormPack16),
            1000156008u32 => Some(Format::R10x6g10x6Unorm2pack16),
            1000156009u32 => Some(Format::R10x6g10x6b10x6a10x6Unorm4pack16),
            1000156010u32 => Some(Format::G10x6b10x6g10x6r10x6422Unorm4pack16),
            1000156011u32 => Some(Format::B10x6g10x6r10x6g10x6422Unorm4pack16),
            1000156012u32 => Some(Format::G10x6B10x6R10x63plane420Unorm3pack16),
            1000156013u32 => Some(Format::G10x6B10x6r10x62plane420Unorm3pack16),
            1000156014u32 => Some(Format::G10x6B10x6R10x63plane422Unorm3pack16),
            1000156015u32 => Some(Format::G10x6B10x6r10x62plane422Unorm3pack16),
            1000156016u32 => Some(Format::G10x6B10x6R10x63plane444Unorm3pack16),
            1000156017u32 => Some(Format::R12x4UnormPack16),
            1000156018u32 => Some(Format::R12x4g12x4Unorm2pack16),
            1000156019u32 => Some(Format::R12x4g12x4b12x4a12x4Unorm4pack16),
            1000156020u32 => Some(Format::G12x4b12x4g12x4r12x4422Unorm4pack16),
            1000156021u32 => Some(Format::B12x4g12x4r12x4g12x4422Unorm4pack16),
            1000156022u32 => Some(Format::G12x4B12x4R12x43plane420Unorm3pack16),
            1000156023u32 => Some(Format::G12x4B12x4r12x42plane420Unorm3pack16),
            1000156024u32 => Some(Format::G12x4B12x4R12x43plane422Unorm3pack16),
            1000156025u32 => Some(Format::G12x4B12x4r12x42plane422Unorm3pack16),
            1000156026u32 => Some(Format::G12x4B12x4R12x43plane444Unorm3pack16),
            1000156027u32 => Some(Format::G16b16g16r16422Unorm),
            1000156028u32 => Some(Format::B16g16r16g16422Unorm),
            1000156029u32 => Some(Format::G16B16R163plane420Unorm),
            1000156030u32 => Some(Format::G16B16r162plane420Unorm),
            1000156031u32 => Some(Format::G16B16R163plane422Unorm),
            1000156032u32 => Some(Format::G16B16r162plane422Unorm),
            1000156033u32 => Some(Format::G16B16R163plane444Unorm),
            1000330000u32 => Some(Format::G8B8r82plane444Unorm),
            1000330001u32 => Some(Format::G10x6B10x6r10x62plane444Unorm3pack16),
            1000330002u32 => Some(Format::G12x4B12x4r12x42plane444Unorm3pack16),
            1000330003u32 => Some(Format::G16B16r162plane444Unorm),
            1000340000u32 => Some(Format::A4r4g4b4UnormPack16),
            1000340001u32 => Some(Format::A4b4g4r4UnormPack16),
            1000066000u32 => Some(Format::Astc4x4SfloatBlock),
            1000066001u32 => Some(Format::Astc5x4SfloatBlock),
            1000066002u32 => Some(Format::Astc5x5SfloatBlock),
            1000066003u32 => Some(Format::Astc6x5SfloatBlock),
            1000066004u32 => Some(Format::Astc6x6SfloatBlock),
            1000066005u32 => Some(Format::Astc8x5SfloatBlock),
            1000066006u32 => Some(Format::Astc8x6SfloatBlock),
            1000066007u32 => Some(Format::Astc8x8SfloatBlock),
            1000066008u32 => Some(Format::Astc10x5SfloatBlock),
            1000066009u32 => Some(Format::Astc10x6SfloatBlock),
            1000066010u32 => Some(Format::Astc10x8SfloatBlock),
            1000066011u32 => Some(Format::Astc10x10SfloatBlock),
            1000066012u32 => Some(Format::Astc12x10SfloatBlock),
            1000066013u32 => Some(Format::Astc12x12SfloatBlock),
            1000054000u32 => Some(Format::Pvrtc12bppUnormBlockImg),
            1000054001u32 => Some(Format::Pvrtc14bppUnormBlockImg),
            1000054002u32 => Some(Format::Pvrtc22bppUnormBlockImg),
            1000054003u32 => Some(Format::Pvrtc24bppUnormBlockImg),
            1000054004u32 => Some(Format::Pvrtc12bppSrgbBlockImg),
            1000054005u32 => Some(Format::Pvrtc14bppSrgbBlockImg),
            1000054006u32 => Some(Format::Pvrtc22bppSrgbBlockImg),
            1000054007u32 => Some(Format::Pvrtc24bppSrgbBlockImg),
            1000464000u32 => Some(Format::R16g16S105Nv),
            1000470000u32 => Some(Format::A1b5g5r5UnormPack16Khr),
            1000470001u32 => Some(Format::A8UnormKhr),
            _ => None,
        }
    }
}

/// Round trip: translating any named format to its native identifier and
/// back recovers the same format, so no two formats share an identifier.
pub proof fn lemma_format_code_roundtrip(f: Format)
    ensures
        Format::from_code_spec(f.code_spec()) == Some(f),
{
}

} // verus!
