use daxa::instance::{InstanceFlags, INSTANCE_FLAG_DEBUG_UTIL};
use daxa::swapchain::{
    NativeWindowPlatform, PresentMode, SurfaceTransformFlags, SURFACE_TRANSFORM_IDENTITY,
    SURFACE_TRANSFORM_INHERIT, SURFACE_TRANSFORM_ROTATE_90,
};
use daxa::types::{
    Filter, ImageCreateFlags, ImageUsageFlags, ImageViewType, PipelineStageFlags,
    IMAGE_CREATE_TWO_DIM_ARRAY_COMPATIBLE_BIT, IMAGE_USAGE_COLOR_ATTACHMENT,
    IMAGE_USAGE_FRAGMENT_DENSITY_MAP, IMAGE_USAGE_FRAGMENT_SHADING_RATE_ATTACHMENT,
    IMAGE_USAGE_HOST_TRANSFER, IMAGE_USAGE_SAMPLED, IMAGE_USAGE_TRANSFER_SRC,
    PIPELINE_STAGE_ALL_COMMANDS_BIT, PIPELINE_STAGE_COLOR_ATTACHMENT_OUTPUT_BIT,
    PIPELINE_STAGE_COMPUTE_SHADER_BIT, PIPELINE_STAGE_MESH_SHADER_BIT_EXT,
    PIPELINE_STAGE_MESH_SHADER_BIT_NV, PIPELINE_STAGE_TOP_OF_PIPE_BIT,
    PIPELINE_STAGE_TRANSFORM_FEEDBACK_BIT_EXT,
};

#[test]
fn union_contains_both_operands() {
    let a = ImageUsageFlags::from_bits(IMAGE_USAGE_TRANSFER_SRC);
    let b = ImageUsageFlags::from_bits(IMAGE_USAGE_COLOR_ATTACHMENT);
    let both = a.union(b);
    assert_eq!(both.intersection(a), a);
    assert_eq!(both.intersection(b), b);
    assert!(both.contains(a));
    assert!(both.contains(b));
    assert!(!a.contains(b));
}

#[test]
fn union_contains_both_operands_64_bit() {
    let a = PipelineStageFlags::from_bits(PIPELINE_STAGE_COMPUTE_SHADER_BIT);
    let b = PipelineStageFlags::from_bits(PIPELINE_STAGE_TRANSFORM_FEEDBACK_BIT_EXT);
    let both = a.union(b);
    assert_eq!(both.intersection(a), a);
    assert_eq!(both.intersection(b), b);
    assert!(both.contains(a));
    assert!(both.contains(b));
    assert!(!b.contains(a));
}

#[test]
fn pipeline_stage_values_match_engine() {
    assert_eq!(PIPELINE_STAGE_TOP_OF_PIPE_BIT, 0x1);
    assert_eq!(PIPELINE_STAGE_COLOR_ATTACHMENT_OUTPUT_BIT, 0x400);
    assert_eq!(PIPELINE_STAGE_ALL_COMMANDS_BIT, 0x10000);
    assert_eq!(PIPELINE_STAGE_MESH_SHADER_BIT_EXT, 0x10_0000);
    assert_eq!(PIPELINE_STAGE_MESH_SHADER_BIT_NV, PIPELINE_STAGE_MESH_SHADER_BIT_EXT);
    assert_eq!(PipelineStageFlags::default().bits, 0);
}

#[test]
fn image_flag_values_match_engine() {
    assert_eq!(IMAGE_USAGE_SAMPLED, 0x4);
    assert_eq!(IMAGE_USAGE_FRAGMENT_SHADING_RATE_ATTACHMENT, 0x100);
    assert_eq!(IMAGE_USAGE_FRAGMENT_DENSITY_MAP, 0x200);
    assert_eq!(IMAGE_USAGE_HOST_TRANSFER, 0x40_0000);
    assert_eq!(IMAGE_CREATE_TWO_DIM_ARRAY_COMPATIBLE_BIT, 0x20);
    assert_eq!(ImageCreateFlags::from_bits(0x20).bits, 0x20);
    assert_eq!(ImageUsageFlags::empty().bits, 0);
}

#[test]
fn instance_flags_compose() {
    assert_eq!(INSTANCE_FLAG_DEBUG_UTIL, 0x1);
    assert_eq!(InstanceFlags::default().bits, 0);
    let debug = InstanceFlags::from_bits(INSTANCE_FLAG_DEBUG_UTIL);
    assert!(debug.union(InstanceFlags::empty()).contains(debug));
}

#[test]
fn surface_transform_values_match_engine() {
    assert_eq!(SURFACE_TRANSFORM_IDENTITY, 0x1);
    assert_eq!(SURFACE_TRANSFORM_ROTATE_90, 0x2);
    assert_eq!(SURFACE_TRANSFORM_INHERIT, 0x100);
    assert_eq!(SurfaceTransformFlags::default().bits, 0);
    let rotated = SurfaceTransformFlags::from_bits(SURFACE_TRANSFORM_ROTATE_90);
    assert!(rotated.union(SurfaceTransformFlags::from_bits(SURFACE_TRANSFORM_IDENTITY))
        .contains(rotated));
}

#[test]
fn view_filter_and_present_values_match_engine() {
    assert_eq!(ImageViewType::OneDim.code(), 0);
    assert_eq!(ImageViewType::CubeArray.code(), 6);
    assert_eq!(Filter::Nearest.code(), 0);
    assert_eq!(Filter::Linear.code(), 1);
    assert_eq!(Filter::CubicExt.code(), 1000015000);
    assert_eq!(Filter::CubicImg.code(), Filter::CubicExt.code());
    assert_eq!(PresentMode::Immediate.code(), 0);
    assert_eq!(PresentMode::Fifo.code(), 2);
    assert_eq!(PresentMode::SharedContinuousRefresh.code(), 1000111001);
    assert_eq!(NativeWindowPlatform::Unknown.code(), 0);
    assert_eq!(NativeWindowPlatform::Wayland.code(), 3);
}
