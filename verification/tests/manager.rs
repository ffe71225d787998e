use resource::ResourceError;
use resource::device::MockDevice;
use resource::device::Requirements;
use resource::heap::MockHeaps;
use resource::image::Kind;
use resource::image::Tiling;
use resource::resources::Resources;
use resource::usage::UsageValue;

fn reqs(size: u64, alignment: u64, type_mask: u32) -> Requirements {
    Requirements { size, alignment, type_mask }
}

fn fixture() -> (MockDevice, MockHeaps, Resources) {
    let device = MockDevice::new(reqs(512, 64, 0b1010), reqs(4096, 256, 0b0110));
    let heaps = MockHeaps::new();
    let resources = Resources::new();
    (device, heaps, resources)
}

#[test]
fn buffer_info_round_trip() {
    let (mut device, mut heaps, mut resources) = fixture();
    let usage = UsageValue { flag_bits: 7, memory_bits: 3 };
    let buf = resources
        .create_buffer(&mut device, &mut heaps, 128, 256, usage)
        .unwrap();
    assert_eq!(buf.info.align, 128);
    assert_eq!(buf.info.size, 256);
    assert_eq!(buf.info.usage, 7);
    resources.destroy_buffer(buf);
    resources.cleanup(&mut device, &mut heaps);
}

#[test]
fn image_info_round_trip() {
    let (mut device, mut heaps, mut resources) = fixture();
    let usage = UsageValue { flag_bits: 9, memory_bits: 1 };
    let img = resources
        .create_image(
            &mut device,
            &mut heaps,
            32,
            Kind::D2(640, 480, 1, 1),
            3,
            44,
            Tiling::Optimal,
            0b10,
            usage,
        )
        .unwrap();
    assert_eq!(img.info.align, 32);
    assert_eq!(img.info.kind, Kind::D2(640, 480, 1, 1));
    assert_eq!(img.info.levels, 3);
    assert_eq!(img.info.format, 44);
    assert_eq!(img.info.tiling, Tiling::Optimal);
    assert_eq!(img.info.view_caps, 0b10);
    assert_eq!(img.info.usage, 9);
    resources.destroy_image(img);
    resources.cleanup(&mut device, &mut heaps);
}

#[test]
fn alignment_floor_device_wins() {
    let (mut device, mut heaps, mut resources) = fixture();
    let usage = UsageValue { flag_bits: 1, memory_bits: 5 };
    let buf = resources
        .create_buffer(&mut device, &mut heaps, 16, 100, usage)
        .unwrap();
    assert_eq!(heaps.request_count(), 1);
    let request = heaps.request_at(0);
    // the device reports alignment 64, which outranks the requested 16
    assert_eq!(request.align, 64);
    assert_eq!(request.size, 512);
    assert_eq!(request.type_mask, 0b1010);
    assert_eq!(request.properties, 5);
    resources.destroy_buffer(buf);
    resources.cleanup(&mut device, &mut heaps);
}

#[test]
fn alignment_floor_caller_wins() {
    let (mut device, mut heaps, mut resources) = fixture();
    let usage = UsageValue { flag_bits: 1, memory_bits: 5 };
    let buf = resources
        .create_buffer(&mut device, &mut heaps, 1024, 100, usage)
        .unwrap();
    let request = heaps.request_at(0);
    // the requested 1024 outranks the device-reported 64
    assert_eq!(request.align, 1024);
    resources.destroy_buffer(buf);
    resources.cleanup(&mut device, &mut heaps);
}

#[test]
fn image_alignment_floor() {
    let (mut device, mut heaps, mut resources) = fixture();
    let usage = UsageValue { flag_bits: 2, memory_bits: 4 };
    let img = resources
        .create_image(
            &mut device,
            &mut heaps,
            64,
            Kind::D1(256, 1),
            1,
            10,
            Tiling::Linear,
            0,
            usage,
        )
        .unwrap();
    let request = heaps.request_at(0);
    // the device reports alignment 256 for images, which outranks 64
    assert_eq!(request.align, 256);
    assert_eq!(request.size, 4096);
    assert_eq!(request.type_mask, 0b0110);
    resources.destroy_image(img);
    resources.cleanup(&mut device, &mut heaps);
}

#[test]
fn explicit_destroy_released_by_next_cleanup() {
    let (mut device, mut heaps, mut resources) = fixture();
    let usage = UsageValue { flag_bits: 0, memory_bits: 0 };
    let buf = resources
        .create_buffer(&mut device, &mut heaps, 1, 64, usage)
        .unwrap();
    assert_eq!(device.created_buffers(), 1);
    assert_eq!(device.live_buffer_count(), 1);
    assert_eq!(heaps.live_block_count(), 1);
    resources.destroy_buffer(buf);
    // explicit destroy is pure bookkeeping: nothing released yet
    assert_eq!(device.destroyed_buffers(), 0);
    resources.cleanup(&mut device, &mut heaps);
    assert_eq!(device.destroyed_buffers(), 1);
    assert_eq!(device.live_buffer_count(), 0);
    assert_eq!(heaps.freed_total(), 1);
    assert_eq!(heaps.live_block_count(), 0);
}

#[test]
fn release_happens_exactly_once() {
    let (mut device, mut heaps, mut resources) = fixture();
    let usage = UsageValue { flag_bits: 0, memory_bits: 0 };
    let buf = resources
        .create_buffer(&mut device, &mut heaps, 1, 64, usage)
        .unwrap();
    resources.destroy_buffer(buf);
    resources.cleanup(&mut device, &mut heaps);
    resources.cleanup(&mut device, &mut heaps);
    resources.cleanup(&mut device, &mut heaps);
    assert_eq!(device.created_buffers(), 1);
    assert_eq!(device.destroyed_buffers(), 1);
    assert_eq!(heaps.allocated_total(), 1);
    assert_eq!(heaps.freed_total(), 1);
}

#[test]
fn cleanup_releases_both_kinds() {
    let (mut device, mut heaps, mut resources) = fixture();
    let buf = resources
        .create_buffer(&mut device, &mut heaps, 1, 64, UsageValue { flag_bits: 1, memory_bits: 1 })
        .unwrap();
    let img = resources
        .create_image(
            &mut device,
            &mut heaps,
            1,
            Kind::D3(8, 8, 8),
            1,
            2,
            Tiling::Optimal,
            0,
            UsageValue { flag_bits: 2, memory_bits: 2 },
        )
        .unwrap();
    resources.destroy_buffer(buf);
    resources.destroy_image(img);
    resources.cleanup(&mut device, &mut heaps);
    assert_eq!(device.destroyed_buffers(), 1);
    assert_eq!(device.destroyed_images(), 1);
    assert_eq!(device.live_buffer_count(), 0);
    assert_eq!(device.live_image_count(), 0);
    assert_eq!(heaps.live_block_count(), 0);
    assert_eq!(heaps.allocated_total(), 2);
    assert_eq!(heaps.freed_total(), 2);
}

#[test]
fn distinct_resources_get_distinct_blocks() {
    let (mut device, mut heaps, mut resources) = fixture();
    let usage = UsageValue { flag_bits: 0, memory_bits: 0 };
    let first = resources
        .create_buffer(&mut device, &mut heaps, 1, 64, usage)
        .unwrap();
    let second = resources
        .create_buffer(&mut device, &mut heaps, 1, 64, usage)
        .unwrap();
    assert_eq!(device.live_buffer_count(), 2);
    assert_eq!(heaps.live_block_count(), 2);
    resources.destroy_buffer(first);
    resources.destroy_buffer(second);
    resources.cleanup(&mut device, &mut heaps);
    assert_eq!(device.destroyed_buffers(), 2);
    assert_eq!(heaps.freed_total(), 2);
}

#[test]
fn create_buffer_error_is_device_creation() {
    let (mut device, mut heaps, mut resources) = fixture();
    device.set_fail_buffer_creation(true);
    let result = resources.create_buffer(
        &mut device,
        &mut heaps,
        1,
        64,
        UsageValue { flag_bits: 0, memory_bits: 0 },
    );
    assert_eq!(result.err().unwrap(), ResourceError::DeviceCreation);
}
