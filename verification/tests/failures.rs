use resource::ResourceError;
use resource::device::MockDevice;
use resource::device::Requirements;
use resource::heap::MockHeaps;
use resource::image::Kind;
use resource::image::Tiling;
use resource::resources::Resources;
use resource::usage::UsageValue;

fn fixture() -> (MockDevice, MockHeaps, Resources) {
    let device = MockDevice::new(
        Requirements { size: 512, alignment: 64, type_mask: 0b1010 },
        Requirements { size: 4096, alignment: 256, type_mask: 0b0110 },
    );
    (device, MockHeaps::new(), Resources::new())
}

#[test]
fn device_failure_makes_no_allocation_request() {
    let (mut device, mut heaps, mut resources) = fixture();
    device.set_fail_buffer_creation(true);
    let result = resources.create_buffer(
        &mut device,
        &mut heaps,
        1,
        64,
        UsageValue { flag_bits: 0, memory_bits: 0 },
    );
    assert_eq!(result.err().unwrap(), ResourceError::DeviceCreation);
    assert_eq!(device.created_buffers(), 0);
    assert_eq!(heaps.request_count(), 0);
    assert_eq!(heaps.allocated_total(), 0);
}

#[test]
fn allocation_failure_destroys_the_object_before_returning() {
    let (mut device, mut heaps, mut resources) = fixture();
    heaps.set_fail_allocation(true);
    let result = resources.create_buffer(
        &mut device,
        &mut heaps,
        1,
        64,
        UsageValue { flag_bits: 0, memory_bits: 0 },
    );
    assert_eq!(result.err().unwrap(), ResourceError::Allocation);
    // the raw object was created, then destroyed: the counts match
    assert_eq!(device.created_buffers(), 1);
    assert_eq!(device.destroyed_buffers(), 1);
    assert_eq!(device.live_buffer_count(), 0);
    // the request was made but nothing stayed allocated
    assert_eq!(heaps.request_count(), 1);
    assert_eq!(heaps.allocated_total(), 0);
    assert_eq!(heaps.live_block_count(), 0);
}

#[test]
fn allocation_failure_destroys_the_image_before_returning() {
    let (mut device, mut heaps, mut resources) = fixture();
    heaps.set_fail_allocation(true);
    let result = resources.create_image(
        &mut device,
        &mut heaps,
        1,
        Kind::D2(16, 16, 1, 1),
        1,
        5,
        Tiling::Linear,
        0,
        UsageValue { flag_bits: 0, memory_bits: 0 },
    );
    assert_eq!(result.err().unwrap(), ResourceError::Allocation);
    assert_eq!(device.created_images(), 1);
    assert_eq!(device.destroyed_images(), 1);
    assert_eq!(device.live_image_count(), 0);
    assert_eq!(heaps.live_block_count(), 0);
}

#[test]
fn bind_failure_leaks_neither_object_nor_block() {
    let (mut device, mut heaps, mut resources) = fixture();
    device.set_fail_bind(true);
    let result = resources.create_buffer(
        &mut device,
        &mut heaps,
        1,
        64,
        UsageValue { flag_bits: 0, memory_bits: 0 },
    );
    assert_eq!(result.err().unwrap(), ResourceError::BindFailure);
    assert_eq!(device.created_buffers(), 1);
    assert_eq!(device.destroyed_buffers(), 1);
    assert_eq!(device.live_buffer_count(), 0);
    // the block was allocated, then freed again
    assert_eq!(heaps.allocated_total(), 1);
    assert_eq!(heaps.freed_total(), 1);
    assert_eq!(heaps.live_block_count(), 0);
}

#[test]
fn failure_then_recovery() {
    let (mut device, mut heaps, mut resources) = fixture();
    heaps.set_fail_allocation(true);
    let usage = UsageValue { flag_bits: 0, memory_bits: 0 };
    assert!(resources.create_buffer(&mut device, &mut heaps, 1, 64, usage).is_err());
    heaps.set_fail_allocation(false);
    let buf = resources
        .create_buffer(&mut device, &mut heaps, 1, 64, usage)
        .unwrap();
    assert_eq!(device.live_buffer_count(), 1);
    resources.destroy_buffer(buf);
    resources.cleanup(&mut device, &mut heaps);
    assert_eq!(device.created_buffers(), 2);
    assert_eq!(device.destroyed_buffers(), 2);
    assert_eq!(heaps.live_block_count(), 0);
}
