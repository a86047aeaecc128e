use daxa::command_recorder::CommandRecorderInfo;
use daxa::instance::{Instance, InstanceCreateError, InstanceFlags, InstanceInfo, INSTANCE_FLAG_DEBUG_UTIL};
use daxa::types::{
    BufferId, BufferInfo, MemoryFlags, SamplerId, SmallString, RESULT_MISSING_EXTENSION,
    RESULT_SUCCESS,
};

fn buffer_info() -> BufferInfo {
    BufferInfo {
        size: 1024,
        allocate_info: MemoryFlags::default(),
        name: SmallString::default(),
    }
}

#[test]
fn it_works() {
    let _instance = Instance::new(
        &InstanceInfo { flags: InstanceFlags::from_bits(INSTANCE_FLAG_DEBUG_UTIL) },
        RESULT_SUCCESS,
    )
    .unwrap();

    let mut device = _instance.create_device(&Default::default());

    let recorder = device.create_command_recorder(&Default::default()).unwrap();
    let _ = recorder;
}

#[test]
fn smoke_instance_device_recorder() {
    let instance = Instance::new(
        &InstanceInfo { flags: InstanceFlags::from_bits(INSTANCE_FLAG_DEBUG_UTIL) },
        RESULT_SUCCESS,
    )
    .unwrap();
    assert_eq!(instance.info().flags.bits, INSTANCE_FLAG_DEBUG_UTIL);

    let mut device = instance.create_device(&Default::default());
    assert_eq!(device.info().max_allowed_buffers, 10000);

    let recorder = device.create_command_recorder(&CommandRecorderInfo::default()).unwrap();
    assert!(recorder.id() >= 1);
}

#[test]
fn instance_error_mapping() {
    let info = InstanceInfo::default();
    let missing = Instance::new(&info, RESULT_MISSING_EXTENSION);
    assert_eq!(missing.unwrap_err(), InstanceCreateError::MissingExtension);

    let other = Instance::new(&info, 42);
    assert_eq!(other.unwrap_err(), InstanceCreateError::Unknown);

    let negative = Instance::new(&info, -3);
    assert_eq!(negative.unwrap_err(), InstanceCreateError::Unknown);
    assert_eq!(InstanceCreateError::Unknown.describe(), "Unknown");
    assert_eq!(InstanceCreateError::MissingExtension.describe(), "MissingExtension");

    assert!(Instance::new(&info, RESULT_SUCCESS).is_ok());
}

#[test]
fn buffer_validity_lifecycle() {
    let instance = Instance::new(&InstanceInfo::default(), RESULT_SUCCESS).unwrap();
    let mut device = instance.create_device(&Default::default());

    let buffer = device.create_buffer(&buffer_info()).unwrap();
    let id = buffer.id();
    assert!(device.is_buffer_valid(id));

    assert!(device.destroy_buffer(id));
    assert!(!device.is_buffer_valid(id));

    assert!(!device.destroy_buffer(id));
}

#[test]
fn recycled_slot_does_not_revalidate_stale_id() {
    let instance = Instance::new(&InstanceInfo::default(), RESULT_SUCCESS).unwrap();
    let mut device = instance.create_device(&Default::default());

    let first = device.create_buffer(&buffer_info()).unwrap();
    let stale = first.id();
    assert!(device.destroy_buffer(stale));

    let second = device.create_buffer(&buffer_info()).unwrap();
    let fresh = second.id();
    assert_ne!(stale, fresh);
    assert!(!device.is_buffer_valid(stale));
    assert!(device.is_buffer_valid(fresh));
}

#[test]
fn buffer_budget_is_enforced() {
    let instance = Instance::new(&InstanceInfo::default(), RESULT_SUCCESS).unwrap();
    let mut info = daxa::device::DeviceInfo::default();
    info.max_allowed_buffers = 2;
    let mut device = instance.create_device(&info);

    let a = device.create_buffer(&buffer_info()).unwrap();
    let b = device.create_buffer(&buffer_info()).unwrap();
    assert!(device.create_buffer(&buffer_info()).is_none());

    assert!(device.destroy_buffer(a.id()));
    let c = device.create_buffer(&buffer_info()).unwrap();
    assert!(device.is_buffer_valid(c.id()));
    assert!(device.is_buffer_valid(b.id()));
}

#[test]
fn unknown_ids_are_invalid() {
    let instance = Instance::new(&InstanceInfo::default(), RESULT_SUCCESS).unwrap();
    let device = instance.create_device(&Default::default());
    assert!(!device.is_buffer_valid(BufferId { index: 0, version: 1 }));
    assert!(!device.is_buffer_valid(BufferId { index: 17, version: 3 }));
    assert!(!device.is_sampler_valid(SamplerId { index: 0, version: 0 }));
}

#[test]
fn resource_kinds_are_tracked_independently() {
    let instance = Instance::new(&InstanceInfo::default(), RESULT_SUCCESS).unwrap();
    let mut device = instance.create_device(&Default::default());

    let sampler = device
        .create_sampler(&daxa::types::SamplerInfo {
            magnification_filter: daxa::types::Filter::Linear,
            minification_filter: daxa::types::Filter::Linear,
            mipmap_filter: daxa::types::Filter::Nearest,
            reduction_mode: daxa::types::ReductionMode::WeightedAverage,
            address_mode_u: daxa::types::SamplerAddressMode::Repeat,
            address_mode_v: daxa::types::SamplerAddressMode::Repeat,
            address_mode_w: daxa::types::SamplerAddressMode::Repeat,
            mip_lod_bias: 0f32.to_bits(),
            enable_anisotropy: false,
            max_anisotropy: 0f32.to_bits(),
            compare_op: daxa::types::CompareOp::Never,
            min_lod: 0f32.to_bits(),
            max_lod: 1f32.to_bits(),
            border_color: daxa::types::BorderColor::FloatTransparentBlack,
            enable_unnormalized_coordinates: false,
            name: SmallString::default(),
        })
        .unwrap();
    let buffer = device.create_buffer(&buffer_info()).unwrap();

    assert!(device.is_sampler_valid(sampler.id()));
    assert!(device.is_buffer_valid(buffer.id()));

    assert!(device.destroy_sampler(sampler.id()));
    assert!(!device.is_sampler_valid(sampler.id()));
    assert!(device.is_buffer_valid(buffer.id()));
}

#[test]
fn handle_resources_get_fresh_handles() {
    let instance = Instance::new(&InstanceInfo::default(), RESULT_SUCCESS).unwrap();
    let mut device = instance.create_device(&Default::default());

    let first = device.create_command_recorder(&CommandRecorderInfo::default()).unwrap();
    let second = device.create_command_recorder(&CommandRecorderInfo::default()).unwrap();
    let semaphore = device
        .create_binary_semaphore(&daxa::device::BinarySemaphoreInfo {
            name: SmallString::default(),
        })
        .unwrap();

    assert!(first.id() >= 1);
    assert_ne!(first.id(), second.id());
    assert_ne!(second.id(), semaphore.id());
}
