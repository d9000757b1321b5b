use gfx_backend::native::DescriptorPool;
use gfx_backend::native::DescriptorSetLayoutBinding;
use gfx_backend::native::DescriptorType;
use gfx_backend::native::Fence;
use gfx_backend::native::Memory;
use gfx_backend::native::SubpassDesc;
use gfx_backend::native::MEMORY_CPU_CACHED;
use gfx_backend::native::MEMORY_CPU_VISIBLE;
use gfx_backend::native::MEMORY_DEVICE_LOCAL;

#[test]
fn fence_wraps_and_replaces_its_sync_object() {
    let mut fence = Fence::new(3);
    assert_eq!(fence.sync, 3);
    fence.replace(4);
    assert_eq!(fence.sync, 4);
}

#[test]
fn memory_upload_download_follow_property_bits() {
    let device_local = Memory { properties: MEMORY_DEVICE_LOCAL, first_bound_buffer: None, size: 1024 };
    assert!(!device_local.can_upload());
    assert!(!device_local.can_download());
    assert_eq!(device_local.map_flags(), 0);

    let upload = Memory { properties: MEMORY_CPU_VISIBLE, first_bound_buffer: None, size: 1024 };
    assert!(upload.can_upload());
    assert!(!upload.can_download());
    assert_eq!(upload.map_flags(), 0x0002);

    let download = Memory {
        properties: MEMORY_CPU_VISIBLE | MEMORY_CPU_CACHED,
        first_bound_buffer: None,
        size: 1024,
    };
    assert!(download.can_upload());
    assert!(download.can_download());
    assert_eq!(download.map_flags(), 0x0003);
}

#[test]
fn allocate_set_copies_the_layout_and_starts_empty() {
    let mut pool = DescriptorPool;
    let layout = vec![DescriptorSetLayoutBinding {
        binding: 0,
        ty: DescriptorType::UniformBuffer,
        count: 1,
        stage_flags: 0x3,
    }];
    let set = pool.allocate_set(&layout).expect("allocation always succeeds");
    assert_eq!(set.layout.len(), 1);
    assert_eq!(set.layout[0].binding, 0);
    assert!(set.bindings.is_empty());
}

#[test]
fn subpass_is_using_finds_its_attachments() {
    let subpass = SubpassDesc { color_attachments: vec![0, 2, 5] };
    assert!(subpass.is_using(0));
    assert!(subpass.is_using(2));
    assert!(subpass.is_using(5));
    assert!(!subpass.is_using(1));
    assert!(!subpass.is_using(7));
}
