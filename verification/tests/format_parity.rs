use daxa::format::Format;

#[test]
fn format_undefined_is_zero() {
    assert_eq!(Format::Undefined.code(), 0);
}

#[test]
fn format_core_values_match_engine() {
    assert_eq!(Format::R4g4UnormPack8.code(), 1);
    assert_eq!(Format::R8Unorm.code(), 9);
    assert_eq!(Format::R8g8b8a8Srgb.code(), 43);
    assert_eq!(Format::B8g8r8a8Unorm.code(), 44);
    assert_eq!(Format::R16g16b16a16Sfloat.code(), 97);
    assert_eq!(Format::R32Uint.code(), 98);
    assert_eq!(Format::R32g32b32a32Sfloat.code(), 109);
    assert_eq!(Format::R64g64b64a64Sfloat.code(), 121);
    assert_eq!(Format::B10g11r11UfloatPack32.code(), 122);
    assert_eq!(Format::D16Unorm.code(), 124);
    assert_eq!(Format::D32Sfloat.code(), 126);
    assert_eq!(Format::D24UnormS8Uint.code(), 129);
    assert_eq!(Format::Bc1RgbUnormBlock.code(), 131);
    assert_eq!(Format::Bc7SrgbBlock.code(), 146);
    assert_eq!(Format::EacR11g11SnormBlock.code(), 156);
    assert_eq!(Format::Astc4x4UnormBlock.code(), 157);
    assert_eq!(Format::Astc12x12SrgbBlock.code(), 184);
}

#[test]
fn format_extension_values_match_engine() {
    assert_eq!(Format::G8b8g8r8422Unorm.code(), 1000156000);
    assert_eq!(Format::G16B16R163plane444Unorm.code(), 1000156033);
    assert_eq!(Format::G8B8r82plane444Unorm.code(), 1000330000);
    assert_eq!(Format::A4r4g4b4UnormPack16.code(), 1000340000);
    assert_eq!(Format::A4b4g4r4UnormPack16.code(), 1000340001);
    assert_eq!(Format::Astc4x4SfloatBlock.code(), 1000066000);
    assert_eq!(Format::Astc12x12SfloatBlock.code(), 1000066013);
    assert_eq!(Format::Pvrtc12bppUnormBlockImg.code(), 1000054000);
    assert_eq!(Format::Pvrtc24bppSrgbBlockImg.code(), 1000054007);
    assert_eq!(Format::R16g16S105Nv.code(), 1000464000);
    assert_eq!(Format::A1b5g5r5UnormPack16Khr.code(), 1000470000);
    assert_eq!(Format::A8UnormKhr.code(), 1000470001);
}

#[test]
fn format_roundtrips_through_its_code() {
    let samples = [
        Format::Undefined,
        Format::R4g4UnormPack8,
        Format::R8Unorm,
        Format::R8g8b8a8Srgb,
        Format::A2b10g10r10SintPack32,
        Format::R16Sfloat,
        Format::R32g32Sint,
        Format::R64g64b64a64Sfloat,
        Format::E5b9g9r9UfloatPack32,
        Format::D16Unorm,
        Format::X8D24UnormPack32,
        Format::D32SfloatS8Uint,
        Format::Bc6hSfloatBlock,
        Format::Etc2R8g8b8a8SrgbBlock,
        Format::EacR11UnormBlock,
        Format::Astc10x8SrgbBlock,
        Format::G8b8g8r8422Unorm,
        Format::R10x6g10x6Unorm2pack16,
        Format::G12x4B12x4R12x43plane444Unorm3pack16,
        Format::G16B16r162plane420Unorm,
        Format::G16B16r162plane444Unorm,
        Format::A4r4g4b4UnormPack16,
        Format::Astc8x8SfloatBlock,
        Format::Pvrtc22bppSrgbBlockImg,
        Format::R16g16S105Nv,
        Format::A1b5g5r5UnormPack16Khr,
        Format::A8UnormKhr,
    ];
    for format in samples {
        assert_eq!(Format::from_code(format.code()), Some(format));
    }
}

#[test]
fn format_from_code_refuses_unassigned_values() {
    assert_eq!(Format::from_code(185), None);
    assert_eq!(Format::from_code(999), None);
    assert_eq!(Format::from_code(1000156034), None);
    assert_eq!(Format::from_code(u32::MAX), None);
}
