use gfx_backend::device::check_error_code;
use gfx_backend::device::DeviceCreationError;
use gfx_backend::device::Error;
use gfx_backend::device::Limits;
use gfx_backend::device::PhysicalDevice;
use gfx_backend::device::QueueFamily;
use gfx_backend::device::QueueType;
use gfx_backend::device::Share;
use gfx_backend::device::LEGACY_SRGB_COLOR;
use gfx_backend::native::MEMORY_COHERENT;
use gfx_backend::native::MEMORY_CPU_CACHED;
use gfx_backend::native::MEMORY_CPU_VISIBLE;
use gfx_backend::native::MEMORY_DEVICE_LOCAL;
use gfx_backend::state::GlCommand;

fn limits() -> Limits {
    Limits {
        max_texture_size: 16384,
        max_patch_size: 32,
        max_viewports: 1,
        min_buffer_copy_offset_alignment: 4,
        min_buffer_copy_pitch_alignment: 4,
    }
}

fn fresh_device(legacy_features: u32, is_embedded: bool, vertex_array: bool) -> PhysicalDevice {
    PhysicalDevice {
        share: Share {
            legacy_features,
            features: 0x5,
            limits: limits(),
            is_embedded,
            vertex_array,
            private_map: true,
            open: false,
        },
    }
}

#[test]
fn error_codes_map_to_typed_errors() {
    assert_eq!(Error::from_error_code(0), Error::NoError);
    assert_eq!(Error::from_error_code(0x0500), Error::InvalidEnum);
    assert_eq!(Error::from_error_code(0x0501), Error::InvalidValue);
    assert_eq!(Error::from_error_code(0x0502), Error::InvalidOperation);
    assert_eq!(Error::from_error_code(0x0506), Error::InvalidFramebufferOperation);
    assert_eq!(Error::from_error_code(0x0505), Error::OutOfMemory);
    assert_eq!(Error::from_error_code(0x1234), Error::UnknownError);
}

#[test]
fn check_error_code_passes_only_no_error() {
    assert_eq!(check_error_code(0), Ok(()));
    assert_eq!(check_error_code(0x0505), Err(Error::OutOfMemory));
    assert_eq!(check_error_code(0x9999), Err(Error::UnknownError));
}

#[test]
fn open_performs_permanent_state_calls() {
    let mut device = fresh_device(LEGACY_SRGB_COLOR, false, true);
    let priorities = vec![1usize];
    let (opened, cmds) = device.open(&priorities, 42).expect("first open succeeds");
    assert_eq!(opened.vao, 42);
    assert_eq!(opened.queue_count, 1);
    assert_eq!(
        cmds,
        vec![
            GlCommand::Enable(0x8DB9),
            GlCommand::PixelStorei(0x0CF5, 1),
            GlCommand::Enable(0x8642),
            GlCommand::CreateVertexArray(42),
            GlCommand::BindVertexArray(42),
        ]
    );
}

#[test]
fn open_on_embedded_context_without_vertex_arrays() {
    let mut device = fresh_device(0, true, false);
    let priorities = vec![1usize];
    let (opened, cmds) = device.open(&priorities, 42).expect("first open succeeds");
    assert_eq!(opened.vao, 0);
    assert_eq!(cmds, vec![GlCommand::PixelStorei(0x0CF5, 1)]);
}

#[test]
fn second_open_fails_with_too_many_objects() {
    let mut device = fresh_device(0, false, false);
    let priorities = vec![1usize];
    assert!(device.open(&priorities, 1).is_ok());
    let second = device.open(&priorities, 2);
    assert_eq!(second.unwrap_err(), DeviceCreationError::TooManyObjects);
}

#[test]
fn open_succeeds_again_after_close() {
    let mut device = fresh_device(0, false, false);
    let priorities = vec![1usize];
    assert!(device.open(&priorities, 1).is_ok());
    device.close();
    assert!(device.open(&priorities, 2).is_ok());
}

#[test]
fn memory_properties_with_mapping_has_three_types() {
    let device = fresh_device(0, false, false);
    let props = device.memory_properties();
    assert_eq!(props.memory_types.len(), 3);
    assert_eq!(props.memory_types[0].properties, MEMORY_DEVICE_LOCAL);
    assert_eq!(props.memory_types[0].heap_index, 1);
    assert_eq!(props.memory_types[1].properties, MEMORY_CPU_VISIBLE | MEMORY_COHERENT);
    assert_eq!(
        props.memory_types[2].properties,
        MEMORY_CPU_VISIBLE | MEMORY_COHERENT | MEMORY_CPU_CACHED
    );
    assert_eq!(props.memory_heaps, vec![u64::MAX, u64::MAX]);
}

#[test]
fn memory_properties_without_mapping_is_device_local_only() {
    let mut device = fresh_device(0, false, false);
    device.share.private_map = false;
    let props = device.memory_properties();
    assert_eq!(props.memory_types.len(), 1);
    assert_eq!(props.memory_types[0].properties, MEMORY_DEVICE_LOCAL);
    assert_eq!(props.memory_types[0].heap_index, 0);
}

#[test]
fn adapter_reports_name_and_closed_share() {
    let adapter = PhysicalDevice::new_adapter(
        LEGACY_SRGB_COLOR,
        0x5,
        limits(),
        false,
        true,
        true,
        String::from("renderer"),
    );
    assert_eq!(adapter.info.name, "renderer");
    assert_eq!(adapter.info.vendor, 0);
    assert_eq!(adapter.info.device, 0);
    assert!(!adapter.physical_device.share.open);
    assert_eq!(adapter.physical_device.legacy_features(), LEGACY_SRGB_COLOR);
    assert_eq!(adapter.physical_device.features(), 0x5);
    assert_eq!(adapter.physical_device.limits(), limits());
}

#[test]
fn queue_family_is_one_general_queue() {
    let family = QueueFamily;
    assert_eq!(family.queue_type(), QueueType::General);
    assert_eq!(family.max_queues(), 1);
    assert_eq!(family.id(), 0);
}
