//! The device capability.
//!
//! The manager never talks to hardware: it consumes a narrow capability
//! interface ([`Device`]) that creates raw objects, reports their memory
//! requirements, binds memory and destroys objects. A device's observable
//! state is a [`DeviceModel`]: the multisets of live raw buffer and image
//! objects and the requirements it reports. [`MockDevice`] is a verified
//! in-memory device for exercising the manager; it counts creations and
//! destructions and can be told to refuse creation or binding.

use vstd::prelude::*;

use vstd::multiset::Multiset;

use crate::ResourceError;
use crate::image::Kind;
use crate::image::Tiling;

verus! {

broadcast use vstd::seq_lib::group_to_multiset_ensures;

/// Memory requirements the device reports for an object: how much memory it
/// needs, the alignment the device itself demands (a floor that a caller's
/// requested alignment may raise but never lower), and which memory types
/// can back it.
#[derive(Clone, Copy, Debug, PartialEq, Eq, Structural)]
pub struct Requirements {
    pub size: u64,
    pub alignment: u64,
    pub type_mask: u32,
}

/// Abstract state of a device: the live raw objects per kind and the
/// requirements it reports per kind.
pub struct DeviceModel {
    pub buffers: Multiset<u64>,
    pub images: Multiset<u64>,
    pub buffer_reqs: Requirements,
    pub image_reqs: Requirements,
}

/// The device capability the manager needs. Creation is fallible; queries
/// and destruction are not. A fresh raw object is distinct from every live
/// one, and destruction consumes exactly one live object: releasing an
/// object a second time cannot meet `destroy_*`'s precondition.
pub trait Device: Sized {
    /// Internal consistency of the device.
    spec fn inv(&self) -> bool;

    /// The device's observable state.
    spec fn model(&self) -> DeviceModel;

    /// Create a raw buffer object for a size and native usage flags.
    fn create_buffer(&mut self, size: u64, flags: u32) -> (r: Result<u64, ResourceError>)
        requires
            old(self).inv(),
        ensures
            final(self).inv(),
            final(self).model().images == old(self).model().images,
            final(self).model().buffer_reqs == old(self).model().buffer_reqs,
            final(self).model().image_reqs == old(self).model().image_reqs,
            match r {
                Ok(raw) => {
                    &&& !old(self).model().buffers.contains(raw)
                    &&& final(self).model().buffers == old(self).model().buffers.insert(raw)
                },
                Err(e) => {
                    &&& e == ResourceError::DeviceCreation
                    &&& final(self).model().buffers == old(self).model().buffers
                },
            },
    ;

    /// The memory requirements of a live raw buffer object.
    fn get_buffer_requirements(&self, raw: u64) -> (reqs: Requirements)
        requires
            self.inv(),
            self.model().buffers.contains(raw),
        ensures
            reqs == self.model().buffer_reqs,
    ;

    /// Bind memory at an offset to a live raw buffer object, yielding the
    /// bound object. On failure the object stays live, so the caller can
    /// still destroy it.
    fn bind_buffer_memory(&mut self, memory: u64, offset: u64, raw: u64) -> (r: Result<
        u64,
        ResourceError,
    >)
        requires
            old(self).inv(),
            old(self).model().buffers.contains(raw),
        ensures
            final(self).inv(),
            final(self).model().images == old(self).model().images,
            final(self).model().buffer_reqs == old(self).model().buffer_reqs,
            final(self).model().image_reqs == old(self).model().image_reqs,
            match r {
                Ok(bound) => {
                    &&& !old(self).model().buffers.remove(raw).contains(bound)
                    &&& final(self).model().buffers == old(self).model().buffers.remove(
                        raw,
                    ).insert(bound)
                },
                Err(e) => {
                    &&& e == ResourceError::BindFailure
                    &&& final(self).model().buffers == old(self).model().buffers
                },
            },
    ;

    /// Destroy a live raw buffer object. Infallible; the caller guarantees
    /// the device no longer uses the object.
    fn destroy_buffer(&mut self, raw: u64)
        requires
            old(self).inv(),
            old(self).model().buffers.contains(raw),
        ensures
            final(self).inv(),
            final(self).model().buffers == old(self).model().buffers.remove(raw),
            final(self).model().images == old(self).model().images,
            final(self).model().buffer_reqs == old(self).model().buffer_reqs,
            final(self).model().image_reqs == old(self).model().image_reqs,
    ;

    /// Create a raw image object for the given creation parameters.
    fn create_image(
        &mut self,
        kind: Kind,
        levels: u8,
        format: u32,
        tiling: Tiling,
        flags: u32,
        view_caps: u32,
    ) -> (r: Result<u64, ResourceError>)
        requires
            old(self).inv(),
        ensures
            final(self).inv(),
            final(self).model().buffers == old(self).model().buffers,
            final(self).model().buffer_reqs == old(self).model().buffer_reqs,
            final(self).model().image_reqs == old(self).model().image_reqs,
            match r {
                Ok(raw) => {
                    &&& !old(self).model().images.contains(raw)
                    &&& final(self).model().images == old(self).model().images.insert(raw)
                },
                Err(e) => {
                    &&& e == ResourceError::DeviceCreation
                    &&& final(self).model().images == old(self).model().images
                },
            },
    ;

    /// The memory requirements of a live raw image object.
    fn get_image_requirements(&self, raw: u64) -> (reqs: Requirements)
        requires
            self.inv(),
            self.model().images.contains(raw),
        ensures
            reqs == self.model().image_reqs,
    ;

    /// Bind memory at an offset to a live raw image object, yielding the
    /// bound object. On failure the object stays live, so the caller can
    /// still destroy it.
    fn bind_image_memory(&mut self, memory: u64, offset: u64, raw: u64) -> (r: Result<
        u64,
        ResourceError,
    >)
        requires
            old(self).inv(),
            old(self).model().images.contains(raw),
        ensures
            final(self).inv(),
            final(self).model().buffers == old(self).model().buffers,
            final(self).model().buffer_reqs == old(self).model().buffer_reqs,
            final(self).model().image_reqs == old(self).model().image_reqs,
            match r {
                Ok(bound) => {
                    &&& !old(self).model().images.remove(raw).contains(bound)
                    &&& final(self).model().images == old(self).model().images.remove(raw).insert(
                        bound,
                    )
                },
                Err(e) => {
                    &&& e == ResourceError::BindFailure
                    &&& final(self).model().images == old(self).model().images
                },
            },
    ;

    /// Destroy a live raw image object. Infallible; the caller guarantees
    /// the device no longer uses the object.
    fn destroy_image(&mut self, raw: u64)
        requires
            old(self).inv(),
            old(self).model().images.contains(raw),
        ensures
            final(self).inv(),
            final(self).model().images == old(self).model().images.remove(raw),
            final(self).model().buffers == old(self).model().buffers,
            final(self).model().buffer_reqs == old(self).model().buffer_reqs,
            final(self).model().image_reqs == old(self).model().image_reqs,
    ;
}

/// Index of a handle in a vector known to contain it.
fn find_raw(raws: &Vec<u64>, raw: u64) -> (index: usize)
    requires
        raws@.contains(raw),
    ensures
        index < raws@.len(),
        raws@[index as int] == raw,
{
    let mut i: usize = 0;
    while i < raws.len()
        invariant
            i <= raws@.len(),
            raws@.contains(raw),
            forall|j: int| 0 <= j < i ==> raws@[j] != raw,
        decreases raws@.len() - i,
    {
        if raws[i] == raw {
            return i;
        }
        i = i + 1;
    }
    proof {
        let j = choose|j: int| 0 <= j < raws@.len() && raws@[j] == raw;
        assert(false);
    }
    0
}

/// A verified in-memory device: mints distinct raw handles, keeps the live
/// objects per kind, counts creations and destructions, and can be told to
/// refuse creation or binding, for exercising the manager's error paths.
pub struct MockDevice {
    next_raw: u64,
    live_buffers: Vec<u64>,
    live_images: Vec<u64>,
    buffer_reqs: Requirements,
    image_reqs: Requirements,
    created_buffers: u64,
    destroyed_buffers: u64,
    created_images: u64,
    destroyed_images: u64,
    fail_buffer_creation: bool,
    fail_image_creation: bool,
    fail_bind: bool,
}

impl MockDevice {
    /// How many buffer creations have succeeded so far.
    pub closed spec fn spec_created_buffers(&self) -> u64 {
        self.created_buffers
    }

    /// How many buffers have been destroyed so far.
    pub closed spec fn spec_destroyed_buffers(&self) -> u64 {
        self.destroyed_buffers
    }

    /// How many image creations have succeeded so far.
    pub closed spec fn spec_created_images(&self) -> u64 {
        self.created_images
    }

    /// How many images have been destroyed so far.
    pub closed spec fn spec_destroyed_images(&self) -> u64 {
        self.destroyed_images
    }

    /// Whether buffer creation is currently told to fail.
    pub closed spec fn spec_fail_buffer_creation(&self) -> bool {
        self.fail_buffer_creation
    }

    /// Whether image creation is currently told to fail.
    pub closed spec fn spec_fail_image_creation(&self) -> bool {
        self.fail_image_creation
    }

    /// Whether memory binding is currently told to fail.
    pub closed spec fn spec_fail_bind(&self) -> bool {
        self.fail_bind
    }

    /// A device with no live objects that reports the given requirements and
    /// refuses nothing.
    pub fn new(buffer_reqs: Requirements, image_reqs: Requirements) -> (device: MockDevice)
        ensures
            device.inv(),
            device.model().buffers == Multiset::<u64>::empty(),
            device.model().images == Multiset::<u64>::empty(),
            device.model().buffer_reqs == buffer_reqs,
            device.model().image_reqs == image_reqs,
            device.spec_created_buffers() == 0,
            device.spec_destroyed_buffers() == 0,
            device.spec_created_images() == 0,
            device.spec_destroyed_images() == 0,
            !device.spec_fail_buffer_creation(),
            !device.spec_fail_image_creation(),
            !device.spec_fail_bind(),
    {
        let device = MockDevice {
            next_raw: 0,
            live_buffers: Vec::new(),
            live_images: Vec::new(),
            buffer_reqs,
            image_reqs,
            created_buffers: 0,
            destroyed_buffers: 0,
            created_images: 0,
            destroyed_images: 0,
            fail_buffer_creation: false,
            fail_image_creation: false,
            fail_bind: false,
        };
        proof {
            assert(device.live_buffers@.to_multiset() =~= Multiset::<u64>::empty());
            assert(device.live_images@.to_multiset() =~= Multiset::<u64>::empty());
        }
        device
    }

    /// Make every following buffer creation fail (or stop doing so).
    pub fn set_fail_buffer_creation(&mut self, fail: bool)
        requires
            old(self).inv(),
        ensures
            final(self).inv(),
            final(self).model() == old(self).model(),
            final(self).counters_unchanged(*old(self)),
            final(self).spec_fail_buffer_creation() == fail,
            final(self).spec_fail_image_creation() == old(self).spec_fail_image_creation(),
            final(self).spec_fail_bind() == old(self).spec_fail_bind(),
    {
        self.fail_buffer_creation = fail;
    }

    /// Make every following image creation fail (or stop doing so).
    pub fn set_fail_image_creation(&mut self, fail: bool)
        requires
            old(self).inv(),
        ensures
            final(self).inv(),
            final(self).model() == old(self).model(),
            final(self).counters_unchanged(*old(self)),
            final(self).spec_fail_image_creation() == fail,
            final(self).spec_fail_buffer_creation() == old(self).spec_fail_buffer_creation(),
            final(self).spec_fail_bind() == old(self).spec_fail_bind(),
    {
        self.fail_image_creation = fail;
    }

    /// Make every following memory binding fail (or stop doing so).
    pub fn set_fail_bind(&mut self, fail: bool)
        requires
            old(self).inv(),
        ensures
            final(self).inv(),
            final(self).model() == old(self).model(),
            final(self).counters_unchanged(*old(self)),
            final(self).spec_fail_bind() == fail,
            final(self).spec_fail_buffer_creation() == old(self).spec_fail_buffer_creation(),
            final(self).spec_fail_image_creation() == old(self).spec_fail_image_creation(),
    {
        self.fail_bind = fail;
    }

    /// The creation and destruction counters agree with another state's.
    pub open spec fn counters_unchanged(&self, other: MockDevice) -> bool {
        &&& self.spec_created_buffers() == other.spec_created_buffers()
        &&& self.spec_destroyed_buffers() == other.spec_destroyed_buffers()
        &&& self.spec_created_images() == other.spec_created_images()
        &&& self.spec_destroyed_images() == other.spec_destroyed_images()
    }

    /// Number of live raw buffer objects.
    pub fn live_buffer_count(&self) -> (count: usize)
        ensures
            count == self.model().buffers.len(),
    {
        proof {
            assert(self.live_buffers@.to_multiset().len() == self.live_buffers@.len());
        }
        self.live_buffers.len()
    }

    /// Number of live raw image objects.
    pub fn live_image_count(&self) -> (count: usize)
        ensures
            count == self.model().images.len(),
    {
        proof {
            assert(self.live_images@.to_multiset().len() == self.live_images@.len());
        }
        self.live_images.len()
    }

    /// Number of buffer creations that succeeded.
    pub fn created_buffers(&self) -> (count: u64)
        ensures
            count == self.spec_created_buffers(),
    {
        self.created_buffers
    }

    /// Number of buffers destroyed.
    pub fn destroyed_buffers(&self) -> (count: u64)
        ensures
            count == self.spec_destroyed_buffers(),
    {
        self.destroyed_buffers
    }

    /// Number of image creations that succeeded.
    pub fn created_images(&self) -> (count: u64)
        ensures
            count == self.spec_created_images(),
    {
        self.created_images
    }

    /// Number of images destroyed.
    pub fn destroyed_images(&self) -> (count: u64)
        ensures
            count == self.spec_destroyed_images(),
    {
        self.destroyed_images
    }
}

impl Device for MockDevice {
    closed spec fn inv(&self) -> bool {
        &&& forall|i: int|
            0 <= i < self.live_buffers@.len() ==> #[trigger] self.live_buffers@[i] < self.next_raw
        &&& forall|i: int|
            0 <= i < self.live_images@.len() ==> #[trigger] self.live_images@[i] < self.next_raw
        &&& self.live_buffers@.no_duplicates()
        &&& self.live_images@.no_duplicates()
        &&& self.destroyed_buffers + self.live_buffers@.len() == self.created_buffers
        &&& self.destroyed_images + self.live_images@.len() == self.created_images
        &&& self.created_buffers + self.created_images == self.next_raw
    }

    closed spec fn model(&self) -> DeviceModel {
        DeviceModel {
            buffers: self.live_buffers@.to_multiset(),
            images: self.live_images@.to_multiset(),
            buffer_reqs: self.buffer_reqs,
            image_reqs: self.image_reqs,
        }
    }

    fn create_buffer(&mut self, size: u64, flags: u32) -> (r: Result<u64, ResourceError>)
        ensures
            r is Ok <==> (!old(self).spec_fail_buffer_creation() && old(self).spec_created_buffers()
                + old(self).spec_created_images() < u64::MAX),
    {
        if self.fail_buffer_creation || self.next_raw == u64::MAX {
            return Err(ResourceError::DeviceCreation);
        }
        let raw = self.next_raw;
        self.next_raw = self.next_raw + 1;
        self.created_buffers = self.created_buffers + 1;
        let ghost before = self.live_buffers@;
        self.live_buffers.push(raw);
        proof {
            assert(!before.contains(raw));
            assert(self.live_buffers@.to_multiset() =~= before.to_multiset().insert(raw));
            assert(self.live_buffers@.no_duplicates()) by {
                assert(forall|j: int| 0 <= j < before.len() ==> self.live_buffers@[j] == before[j]);
            }
        }
        Ok(raw)
    }

    fn get_buffer_requirements(&self, raw: u64) -> Requirements {
        self.buffer_reqs
    }

    fn bind_buffer_memory(&mut self, memory: u64, offset: u64, raw: u64) -> (r: Result<
        u64,
        ResourceError,
    >)
        ensures
            r is Ok <==> !old(self).spec_fail_bind(),
    {
        if self.fail_bind {
            return Err(ResourceError::BindFailure);
        }
        proof {
            self.live_buffers@.lemma_multiset_has_no_duplicates();
            assert(self.model().buffers.remove(raw).insert(raw) =~= self.model().buffers);
        }
        Ok(raw)
    }

    fn destroy_buffer(&mut self, raw: u64) {
        proof {
            assert(self.live_buffers@.contains(raw));
        }
        let index = find_raw(&self.live_buffers, raw);
        let ghost before = self.live_buffers@;
        self.live_buffers.remove(index);
        self.destroyed_buffers = self.destroyed_buffers + 1;
        proof {
            assert(self.live_buffers@.to_multiset() =~= before.to_multiset().remove(raw));
            assert forall|i: int|
                0 <= i < self.live_buffers@.len() implies #[trigger] self.live_buffers@[i]
                < self.next_raw by {
                if i < index {
                    assert(self.live_buffers@[i] == before[i]);
                } else {
                    assert(self.live_buffers@[i] == before[i + 1]);
                }
            }
            assert(self.live_buffers@.no_duplicates()) by {
                assert(forall|i: int|
                    0 <= i < self.live_buffers@.len() ==> self.live_buffers@[i] == if i < index {
                        before[i]
                    } else {
                        before[i + 1]
                    });
            }
        }
    }

    fn create_image(
        &mut self,
        kind: Kind,
        levels: u8,
        format: u32,
        tiling: Tiling,
        flags: u32,
        view_caps: u32,
    ) -> (r: Result<u64, ResourceError>)
        ensures
            r is Ok <==> (!old(self).spec_fail_image_creation() && old(self).spec_created_buffers()
                + old(self).spec_created_images() < u64::MAX),
    {
        if self.fail_image_creation || self.next_raw == u64::MAX {
            return Err(ResourceError::DeviceCreation);
        }
        let raw = self.next_raw;
        self.next_raw = self.next_raw + 1;
        self.created_images = self.created_images + 1;
        let ghost before = self.live_images@;
        self.live_images.push(raw);
        proof {
            assert(!before.contains(raw));
            assert(self.live_images@.to_multiset() =~= before.to_multiset().insert(raw));
            assert(self.live_images@.no_duplicates()) by {
                assert(forall|j: int| 0 <= j < before.len() ==> self.live_images@[j] == before[j]);
            }
        }
        Ok(raw)
    }

    fn get_image_requirements(&self, raw: u64) -> Requirements {
        self.image_reqs
    }

    fn bind_image_memory(&mut self, memory: u64, offset: u64, raw: u64) -> (r: Result<
        u64,
        ResourceError,
    >)
        ensures
            r is Ok <==> !old(self).spec_fail_bind(),
    {
        if self.fail_bind {
            return Err(ResourceError::BindFailure);
        }
        proof {
            self.live_images@.lemma_multiset_has_no_duplicates();
            assert(self.model().images.remove(raw).insert(raw) =~= self.model().images);
        }
        Ok(raw)
    }

    fn destroy_image(&mut self, raw: u64) {
        proof {
            assert(self.live_images@.contains(raw));
        }
        let index = find_raw(&self.live_images, raw);
        let ghost before = self.live_images@;
        self.live_images.remove(index);
        self.destroyed_images = self.destroyed_images + 1;
        proof {
            assert(self.live_images@.to_multiset() =~= before.to_multiset().remove(raw));
            assert forall|i: int|
                0 <= i < self.live_images@.len() implies #[trigger] self.live_images@[i]
                < self.next_raw by {
                if i < index {
                    assert(self.live_images@[i] == before[i]);
                } else {
                    assert(self.live_images@[i] == before[i + 1]);
                }
            }
            assert(self.live_images@.no_duplicates()) by {
                assert(forall|i: int|
                    0 <= i < self.live_images@.len() ==> self.live_images@[i] == if i < index {
                        before[i]
                    } else {
                        before[i + 1]
                    });
            }
        }
    }
}

} // verus!
