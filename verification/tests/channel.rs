use resource::device::MockDevice;
use resource::device::Requirements;
use resource::heap::MockHeaps;
use resource::image::Kind;
use resource::image::Tiling;
use resource::resources::Resources;
use resource::usage::UsageValue;

fn fixture() -> (MockDevice, MockHeaps, Resources) {
    let device = MockDevice::new(
        Requirements { size: 512, alignment: 64, type_mask: 0b1010 },
        Requirements { size: 4096, alignment: 256, type_mask: 0b0110 },
    );
    (device, MockHeaps::new(), Resources::new())
}

#[test]
fn implicit_drop_takes_two_cleanup_cycles() {
    let (mut device, mut heaps, mut resources) = fixture();
    let buf = resources
        .create_buffer(&mut device, &mut heaps, 1, 64, UsageValue { flag_bits: 0, memory_bits: 0 })
        .unwrap();
    drop(buf);
    resources.cleanup(&mut device, &mut heaps);
    // the drained payload only became pending: not destroyed yet
    assert_eq!(device.destroyed_buffers(), 0);
    assert_eq!(device.live_buffer_count(), 1);
    assert_eq!(heaps.freed_total(), 0);
    resources.cleanup(&mut device, &mut heaps);
    // the second cycle releases it
    assert_eq!(device.destroyed_buffers(), 1);
    assert_eq!(device.live_buffer_count(), 0);
    assert_eq!(heaps.freed_total(), 1);
    assert_eq!(heaps.live_block_count(), 0);
}

#[test]
fn implicit_image_drop_takes_two_cleanup_cycles() {
    let (mut device, mut heaps, mut resources) = fixture();
    let img = resources
        .create_image(
            &mut device,
            &mut heaps,
            1,
            Kind::D2(32, 32, 1, 1),
            1,
            5,
            Tiling::Optimal,
            0,
            UsageValue { flag_bits: 0, memory_bits: 0 },
        )
        .unwrap();
    drop(img);
    resources.cleanup(&mut device, &mut heaps);
    assert_eq!(device.destroyed_images(), 0);
    resources.cleanup(&mut device, &mut heaps);
    assert_eq!(device.destroyed_images(), 1);
    assert_eq!(device.live_image_count(), 0);
}

#[test]
fn explicit_and_implicit_paths_meet_in_cleanup() {
    let (mut device, mut heaps, mut resources) = fixture();
    let usage = UsageValue { flag_bits: 0, memory_bits: 0 };
    let kept = resources.create_buffer(&mut device, &mut heaps, 1, 64, usage).unwrap();
    let dropped = resources.create_buffer(&mut device, &mut heaps, 1, 64, usage).unwrap();
    resources.destroy_buffer(kept);
    drop(dropped);
    resources.cleanup(&mut device, &mut heaps);
    // the explicitly destroyed one was pending and is gone; the dropped one
    // was only drained and survives this cycle
    assert_eq!(device.destroyed_buffers(), 1);
    assert_eq!(device.live_buffer_count(), 1);
    resources.cleanup(&mut device, &mut heaps);
    assert_eq!(device.destroyed_buffers(), 2);
    assert_eq!(device.live_buffer_count(), 0);
    assert_eq!(heaps.freed_total(), 2);
}

#[test]
fn escaped_drops_are_each_delivered_once() {
    let (mut device, mut heaps, mut resources) = fixture();
    for round in 0..50 {
        // handles wander off into client-owned storage and are dropped there,
        // far from the manager
        let mut stash = Vec::new();
        for _ in 0..(round % 4) + 1 {
            let buf = resources
                .create_buffer(
                    &mut device,
                    &mut heaps,
                    1,
                    64,
                    UsageValue { flag_bits: 0, memory_bits: 0 },
                )
                .unwrap();
            stash.push(buf);
        }
        let batch = stash.len() as u64;
        drop(stash);
        let destroyed_before = device.destroyed_buffers();
        resources.cleanup(&mut device, &mut heaps);
        // the drained payloads only became pending in the first cycle
        assert_eq!(device.destroyed_buffers(), destroyed_before);
        resources.cleanup(&mut device, &mut heaps);
        assert_eq!(device.destroyed_buffers(), destroyed_before + batch);
    }
    assert_eq!(device.created_buffers(), device.destroyed_buffers());
    assert_eq!(device.live_buffer_count(), 0);
    assert_eq!(heaps.live_block_count(), 0);
}

#[test]
fn severed_terminal_loses_payload_silently() {
    let (mut device, mut heaps, mut resources) = fixture();
    let buf = resources
        .create_buffer(&mut device, &mut heaps, 1, 64, UsageValue { flag_bits: 0, memory_bits: 0 })
        .unwrap();
    // dropping the manager severs the channel; dropping the handle afterwards
    // discards the payload without panicking (the leak guard only reports)
    drop(resources);
    drop(buf);
    assert_eq!(device.live_buffer_count(), 1);
}
