use daxa::device::{DeviceFlags, DeviceInfo, DEVICE_FLAG_BUFFER_DEVICE_ADDRESS_CAPTURE_REPLAY_BIT};
use daxa::command_recorder::CommandRecorderInfo;
use daxa::format::Format;
use daxa::pipeline::{
    BlendFactor, BlendInfo, BlendOp, ColorComponentFlags, DepthTestInfo, FrontFace, PolygonMode,
    PrimitiveTopology, RasterizerInfo, COLOR_COMPONENT_A, COLOR_COMPONENT_B, COLOR_COMPONENT_G,
    COLOR_COMPONENT_R, CULL_MODE_NONE,
};
use daxa::types::CompareOp;

#[test]
fn rasterizer_defaults_match_documented_state() {
    let raster = RasterizerInfo::default();
    assert_eq!(raster.primitive_topology, PrimitiveTopology::TriangleList);
    assert!(!raster.primitive_restart_enable);
    assert_eq!(raster.polygon_mode, PolygonMode::Fill);
    assert_eq!(raster.face_culling.bits, CULL_MODE_NONE);
    assert_eq!(raster.front_face_winding, FrontFace::Clockwise);
    assert!(!raster.depth_clamp_enable);
    assert!(!raster.rasterizer_discard_enable);
    assert!(!raster.depth_bias_enable);
    assert_eq!(f32::from_bits(raster.depth_bias_constant_factor), 0.0);
    assert_eq!(f32::from_bits(raster.depth_bias_clamp), 0.0);
    assert_eq!(f32::from_bits(raster.depth_bias_slope_factor), 0.0);
    assert_eq!(f32::from_bits(raster.line_width), 1.0);
    assert!(raster.conservative_raster_info.into_option().is_none());
}

#[test]
fn depth_test_defaults_match_documented_state() {
    let depth = DepthTestInfo::default();
    assert_eq!(depth.depth_attachment_format, Format::Undefined);
    assert!(!depth.enable_depth_write);
    assert_eq!(depth.depth_test_compare_op, CompareOp::LessOrEqual);
    assert_eq!(f32::from_bits(depth.min_depth_bounds), 0.0);
    assert_eq!(f32::from_bits(depth.max_depth_bounds), 1.0);
}

#[test]
fn blend_defaults_write_through_unblended() {
    let blend = BlendInfo::default();
    assert_eq!(blend.src_color_blend_factor, BlendFactor::One);
    assert_eq!(blend.dst_color_blend_factor, BlendFactor::Zero);
    assert_eq!(blend.color_blend_op, BlendOp::Add);
    assert_eq!(blend.src_alpha_blend_factor, BlendFactor::One);
    assert_eq!(blend.dst_alpha_blend_factor, BlendFactor::Zero);
    assert_eq!(blend.alpha_blend_op, BlendOp::Add);
    let full_mask = ColorComponentFlags::from_bits(COLOR_COMPONENT_R)
        .union(ColorComponentFlags::from_bits(COLOR_COMPONENT_G))
        .union(ColorComponentFlags::from_bits(COLOR_COMPONENT_B))
        .union(ColorComponentFlags::from_bits(COLOR_COMPONENT_A));
    assert_eq!(blend.color_write_mask, full_mask);
    assert_eq!(blend.color_write_mask.bits, 0xF);
}

#[test]
fn blend_enum_values_match_engine() {
    assert_eq!(BlendFactor::Zero.code(), 0);
    assert_eq!(BlendFactor::One.code(), 1);
    assert_eq!(BlendFactor::OneMinusSrc1Alpha.code(), 18);
    assert_eq!(BlendOp::Add.code(), 0);
    assert_eq!(BlendOp::Max.code(), 4);
    assert_eq!(BlendOp::ZeroExt.code(), 1000148000);
    assert_eq!(BlendOp::BlueExt.code(), 1000148045);
    assert_eq!(PolygonMode::FillRectangleNV.code(), 1000153000);
}

#[test]
fn device_info_defaults_match_documented_budgets() {
    let info = DeviceInfo::default();
    assert_eq!(info.flags.bits, DEVICE_FLAG_BUFFER_DEVICE_ADDRESS_CAPTURE_REPLAY_BIT);
    assert_eq!(info.flags, DeviceFlags::default());
    assert_eq!(info.max_allowed_images, 10000);
    assert_eq!(info.max_allowed_buffers, 10000);
    assert_eq!(info.max_allowed_samplers, 400);
    assert_eq!(info.name.len(), 0);
}

#[test]
fn command_recorder_info_default_has_empty_name() {
    let info = CommandRecorderInfo::default();
    assert_eq!(info.name.len(), 0);
}
