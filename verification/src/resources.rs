//! The resource manager.
//!
//! [`Resources`] creates buffers and images by combining a device capability
//! call with a memory-heap allocation, hands them out as freely droppable
//! handles, and reclaims them in explicit, batched [`Resources::cleanup`]
//! calls made with the device and allocator in hand. Destruction is
//! two-phased: what a cleanup call destroys is exactly what was pending when
//! it started; payloads drained from the escape channel during the same call
//! only become pending, giving implicitly dropped handles a one-cycle grace
//! window.

use vstd::prelude::*;

use vstd::multiset::Multiset;

use crate::ResourceError;
use crate::buffer;
use crate::device::Device;
use crate::device::Requirements;
use crate::escape::Escape;
use crate::escape::Terminal;
use crate::guard::dispose_guard;
use crate::guard::new_guard;
use crate::heap::AllocRequest;
use crate::heap::MemoryBlock;
use crate::heap::Heaps;
use crate::image;
use crate::usage::Usage;

verus! {

broadcast use vstd::multiset::group_multiset_axioms;

/// The larger of two alignments.
pub open spec fn max_align(a: u64, b: u64) -> u64 {
    if a >= b {
        a
    } else {
        b
    }
}

/// The allocation request the manager makes for device-reported
/// requirements, usage memory properties and a caller-requested alignment.
/// The caller's alignment is a floor: it may raise the device's own
/// alignment, never lower it.
pub open spec fn alloc_request_for(reqs: Requirements, properties: u32, align: u64) -> AllocRequest {
    AllocRequest {
        type_mask: reqs.type_mask,
        properties,
        size: reqs.size,
        align: max_align(reqs.alignment, align),
    }
}

/// Alignment floor: the alignment the manager requests is never below the
/// device-reported one and never below the caller-requested one, and equals
/// whichever of the two is larger.
pub proof fn lemma_alignment_floor(reqs: Requirements, properties: u32, align: u64)
    ensures
        alloc_request_for(reqs, properties, align).align >= reqs.alignment,
        alloc_request_for(reqs, properties, align).align >= align,
        align <= reqs.alignment ==> alloc_request_for(reqs, properties, align).align
            == reqs.alignment,
        reqs.alignment <= align ==> alloc_request_for(reqs, properties, align).align == align,
{
}

/// At-most-once release: once a cleanup call has released a batch that
/// accounts for every live occurrence of an item (a raw object handle or a
/// memory block), the item is no longer live, so no later release of it can
/// meet the release precondition again.
pub proof fn lemma_release_at_most_once<V>(live: Multiset<V>, released: Multiset<V>, item: V)
    requires
        released.subset_of(live),
        released.count(item) == live.count(item),
        released.contains(item),
    ensures
        !live.sub(released).contains(item),
{
}

/// Deferred-drop grace window: an item that is live but not in the pending
/// batch of a cleanup call — such as a payload drained from the escape
/// channel during that very call — survives the call untouched; only a later
/// cleanup, which finds it pending, releases it.
pub proof fn lemma_grace_window<V>(live: Multiset<V>, pending: Multiset<V>, item: V)
    requires
        pending.subset_of(live),
        live.contains(item),
        !pending.contains(item),
    ensures
        live.sub(pending).contains(item),
        live.sub(pending).count(item) == live.count(item),
{
}

/// One release step: if a batch extended by one item is covered by the live
/// multiset, the item is live, the rest of the batch is covered once the
/// item is removed, and releasing the item first then the rest equals
/// releasing the whole batch.
proof fn lemma_release_step<V>(rest: Multiset<V>, live: Multiset<V>, item: V)
    requires
        rest.insert(item).subset_of(live),
    ensures
        live.contains(item),
        rest.subset_of(live.remove(item)),
        live.remove(item).sub(rest) == live.sub(rest.insert(item)),
{
    assert(rest.insert(item).count(item) <= live.count(item));
    assert forall|v: V| rest.count(v) <= live.remove(item).count(v) by {
        assert(rest.insert(item).count(v) <= live.count(v));
    }
    assert(live.remove(item).sub(rest) =~= live.sub(rest.insert(item)));
}

/// Releasing an empty batch releases nothing.
proof fn lemma_release_nothing<V>(live: Multiset<V>)
    ensures
        live.sub(Multiset::<V>::empty()) == live,
{
    assert(live.sub(Multiset::<V>::empty()) =~= live);
}

/// Inserting into one summand of a multiset sum inserts into the sum.
proof fn lemma_insert_add<V>(a: Multiset<V>, b: Multiset<V>, item: V)
    ensures
        a.insert(item).add(b) == a.add(b).insert(item),
{
    assert(a.insert(item).add(b) =~= a.add(b).insert(item));
}

/// The resource manager: one escape terminal and one pending-destruction
/// list per resource kind. Created empty; accumulates pending payloads
/// through explicit destroy calls and through the terminals; releases them
/// in cleanup calls. Dropping the manager does not free outstanding
/// resources: callers cleanup first, while device and allocator are valid.
pub struct Resources {
    buffers: Terminal<buffer::Inner>,
    images: Terminal<image::Inner>,
    dropped_buffers: Vec<buffer::Inner>,
    dropped_images: Vec<image::Inner>,
}

impl Resources {
    /// The buffer payloads awaiting destruction by the next cleanup call.
    pub closed spec fn pending_buffers(&self) -> Seq<buffer::Inner> {
        self.dropped_buffers@
    }

    /// The image payloads awaiting destruction by the next cleanup call.
    pub closed spec fn pending_images(&self) -> Seq<image::Inner> {
        self.dropped_images@
    }

    /// Create a new manager with nothing pending.
    pub fn new() -> (resources: Resources)
        ensures
            resources.pending_buffers() == Seq::<buffer::Inner>::empty(),
            resources.pending_images() == Seq::<image::Inner>::empty(),
    {
        Resources {
            buffers: Terminal::new(),
            images: Terminal::new(),
            dropped_buffers: Vec::new(),
            dropped_images: Vec::new(),
        }
    }

    /// Create a buffer and bind it to memory that supports the intended
    /// usage. On success the returned handle carries a fresh raw object
    /// bound to a fresh block, and its `info` echoes the creation parameters
    /// exactly. On any failure nothing leaks: a raw object created before a
    /// failed allocation or binding is destroyed, and an allocated block is
    /// freed, before the error returns.
    pub fn create_buffer<D: Device, H: Heaps, U: Usage>(
        &mut self,
        device: &mut D,
        heaps: &mut H,
        align: u64,
        size: u64,
        usage: U,
    ) -> (r: Result<buffer::Buffer, ResourceError>)
        requires
            old(device).inv(),
            old(heaps).inv(),
        ensures
            final(device).inv(),
            final(heaps).inv(),
            final(self).pending_buffers() == old(self).pending_buffers(),
            final(self).pending_images() == old(self).pending_images(),
            final(device).model().images == old(device).model().images,
            final(device).model().buffer_reqs == old(device).model().buffer_reqs,
            final(device).model().image_reqs == old(device).model().image_reqs,
            match r {
                Ok(buf) => {
                    &&& buf.wf()
                    &&& buf.info == (buffer::Info { align, size, usage: usage.spec_flags() })
                    &&& !old(device).model().buffers.contains(buf.inner@.raw)
                    &&& final(device).model().buffers == old(device).model().buffers.insert(
                        buf.inner@.raw,
                    )
                    &&& !old(heaps).model().blocks.contains(buf.inner@.block)
                    &&& final(heaps).model().blocks == old(heaps).model().blocks.insert(
                        buf.inner@.block,
                    )
                    &&& buf.inner@.block.start <= buf.inner@.block.end
                    &&& old(device).model().buffer_reqs.size <= buf.inner@.block.end
                        - buf.inner@.block.start
                    &&& final(heaps).model().requests == old(heaps).model().requests.push(
                        alloc_request_for(
                            old(device).model().buffer_reqs,
                            usage.spec_memory(),
                            align,
                        ),
                    )
                },
                Err(e) => {
                    &&& final(device).model().buffers == old(device).model().buffers
                    &&& final(heaps).model().blocks == old(heaps).model().blocks
                    &&& (e == ResourceError::DeviceCreation ==> final(heaps).model().requests
                        == old(heaps).model().requests)
                    &&& (e != ResourceError::DeviceCreation ==> final(heaps).model().requests
                        == old(heaps).model().requests.push(
                        alloc_request_for(
                            old(device).model().buffer_reqs,
                            usage.spec_memory(),
                            align,
                        ),
                    ))
                },
            },
    {
        let raw = match device.create_buffer(size, usage.flags()) {
            Ok(raw) => raw,
            Err(e) => {
                return Err(e);
            },
        };
        let reqs = device.get_buffer_requirements(raw);
        let req_align = if reqs.alignment >= align {
            reqs.alignment
        } else {
            align
        };
        let block = match heaps.allocate(reqs.type_mask, usage.memory(), reqs.size, req_align) {
            Ok(block) => block,
            Err(e) => {
                device.destroy_buffer(raw);
                proof {
                    assert(device.model().buffers =~= old(device).model().buffers);
                }
                return Err(e);
            },
        };
        let bound = match device.bind_buffer_memory(block.memory, block.start, raw) {
            Ok(bound) => bound,
            Err(e) => {
                device.destroy_buffer(raw);
                heaps.free(block);
                proof {
                    assert(device.model().buffers =~= old(device).model().buffers);
                    assert(heaps.model().blocks =~= old(heaps).model().blocks);
                }
                return Err(e);
            },
        };
        proof {
            assert(device.model().buffers =~= old(device).model().buffers.insert(bound));
        }
        Ok(
            buffer::Buffer {
                inner: self.buffers.escape(
                    buffer::Inner { raw: bound, block, relevant: new_guard() },
                ),
                info: buffer::Info { align, size, usage: usage.flags() },
            },
        )
    }

    /// Destroy a buffer explicitly. Equivalent to dropping the handle, but
    /// the payload goes straight onto the pending list instead of through
    /// the escape channel, and is therefore destroyed by the next cleanup
    /// call rather than the one after it.
    pub fn destroy_buffer(&mut self, buf: buffer::Buffer)
        requires
            buf.wf(),
        ensures
            final(self).pending_buffers() == old(self).pending_buffers().push(buf.inner@),
            final(self).pending_images() == old(self).pending_images(),
    {
        self.dropped_buffers.push(Escape::into_inner(buf.inner));
    }

    /// Destroy a pending buffer payload: destroy the raw object through the
    /// device, free its block through the allocator, acknowledge the leak
    /// guard. The caller guarantees the device no longer uses the object.
    fn destroy_buffer_inner<D: Device, H: Heaps>(
        inner: buffer::Inner,
        device: &mut D,
        heaps: &mut H,
    )
        requires
            old(device).inv(),
            old(heaps).inv(),
            old(device).model().buffers.contains(inner.raw),
            old(heaps).model().blocks.contains(inner.block),
        ensures
            final(device).inv(),
            final(heaps).inv(),
            final(device).model().buffers == old(device).model().buffers.remove(inner.raw),
            final(device).model().images == old(device).model().images,
            final(device).model().buffer_reqs == old(device).model().buffer_reqs,
            final(device).model().image_reqs == old(device).model().image_reqs,
            final(heaps).model().blocks == old(heaps).model().blocks.remove(inner.block),
            final(heaps).model().requests == old(heaps).model().requests,
    {
        let buffer::Inner { raw, block, relevant } = inner;
        device.destroy_buffer(raw);
        heaps.free(block);
        dispose_guard(relevant);
    }

    /// Create an image and bind it to memory that supports the intended
    /// usage. Mirrors `create_buffer`, with image creation parameters.
    pub fn create_image<D: Device, H: Heaps, U: Usage>(
        &mut self,
        device: &mut D,
        heaps: &mut H,
        align: u64,
        kind: image::Kind,
        levels: u8,
        format: u32,
        tiling: image::Tiling,
        view_caps: u32,
        usage: U,
    ) -> (r: Result<image::Image, ResourceError>)
        requires
            old(device).inv(),
            old(heaps).inv(),
        ensures
            final(device).inv(),
            final(heaps).inv(),
            final(self).pending_buffers() == old(self).pending_buffers(),
            final(self).pending_images() == old(self).pending_images(),
            final(device).model().buffers == old(device).model().buffers,
            final(device).model().buffer_reqs == old(device).model().buffer_reqs,
            final(device).model().image_reqs == old(device).model().image_reqs,
            match r {
                Ok(img) => {
                    &&& img.wf()
                    &&& img.info == (image::Info {
                        align,
                        kind,
                        levels,
                        format,
                        tiling,
                        view_caps,
                        usage: usage.spec_flags(),
                    })
                    &&& !old(device).model().images.contains(img.inner@.raw)
                    &&& final(device).model().images == old(device).model().images.insert(
                        img.inner@.raw,
                    )
                    &&& !old(heaps).model().blocks.contains(img.inner@.block)
                    &&& final(heaps).model().blocks == old(heaps).model().blocks.insert(
                        img.inner@.block,
                    )
                    &&& img.inner@.block.start <= img.inner@.block.end
                    &&& old(device).model().image_reqs.size <= img.inner@.block.end
                        - img.inner@.block.start
                    &&& final(heaps).model().requests == old(heaps).model().requests.push(
                        alloc_request_for(
                            old(device).model().image_reqs,
                            usage.spec_memory(),
                            align,
                        ),
                    )
                },
                Err(e) => {
                    &&& final(device).model().images == old(device).model().images
                    &&& final(heaps).model().blocks == old(heaps).model().blocks
                    &&& (e == ResourceError::DeviceCreation ==> final(heaps).model().requests
                        == old(heaps).model().requests)
                    &&& (e != ResourceError::DeviceCreation ==> final(heaps).model().requests
                        == old(heaps).model().requests.push(
                        alloc_request_for(
                            old(device).model().image_reqs,
                            usage.spec_memory(),
                            align,
                        ),
                    ))
                },
            },
    {
        let raw = match device.create_image(kind, levels, format, tiling, usage.flags(), view_caps) {
            Ok(raw) => raw,
            Err(e) => {
                return Err(e);
            },
        };
        let reqs = device.get_image_requirements(raw);
        let req_align = if reqs.alignment >= align {
            reqs.alignment
        } else {
            align
        };
        let block = match heaps.allocate(reqs.type_mask, usage.memory(), reqs.size, req_align) {
            Ok(block) => block,
            Err(e) => {
                device.destroy_image(raw);
                proof {
                    assert(device.model().images =~= old(device).model().images);
                }
                return Err(e);
            },
        };
        let bound = match device.bind_image_memory(block.memory, block.start, raw) {
            Ok(bound) => bound,
            Err(e) => {
                device.destroy_image(raw);
                heaps.free(block);
                proof {
                    assert(device.model().images =~= old(device).model().images);
                    assert(heaps.model().blocks =~= old(heaps).model().blocks);
                }
                return Err(e);
            },
        };
        proof {
            assert(device.model().images =~= old(device).model().images.insert(bound));
        }
        Ok(
            image::Image {
                inner: self.images.escape(image::Inner { raw: bound, block, relevant: new_guard() }),
                info: image::Info {
                    align,
                    kind,
                    levels,
                    format,
                    tiling,
                    view_caps,
                    usage: usage.flags(),
                },
            },
        )
    }

    /// Destroy an image explicitly. Equivalent to dropping the handle, but
    /// the payload goes straight onto the pending list instead of through
    /// the escape channel, and is therefore destroyed by the next cleanup
    /// call rather than the one after it.
    pub fn destroy_image(&mut self, img: image::Image)
        requires
            img.wf(),
        ensures
            final(self).pending_images() == old(self).pending_images().push(img.inner@),
            final(self).pending_buffers() == old(self).pending_buffers(),
    {
        self.dropped_images.push(Escape::into_inner(img.inner));
    }

    /// Destroy a pending image payload: destroy the raw object through the
    /// device, free its block through the allocator, acknowledge the leak
    /// guard. The caller guarantees the device no longer uses the object.
    fn destroy_image_inner<D: Device, H: Heaps>(
        inner: image::Inner,
        device: &mut D,
        heaps: &mut H,
    )
        requires
            old(device).inv(),
            old(heaps).inv(),
            old(device).model().images.contains(inner.raw),
            old(heaps).model().blocks.contains(inner.block),
        ensures
            final(device).inv(),
            final(heaps).inv(),
            final(device).model().images == old(device).model().images.remove(inner.raw),
            final(device).model().buffers == old(device).model().buffers,
            final(device).model().buffer_reqs == old(device).model().buffer_reqs,
            final(device).model().image_reqs == old(device).model().image_reqs,
            final(heaps).model().blocks == old(heaps).model().blocks.remove(inner.block),
            final(heaps).model().requests == old(heaps).model().requests,
    {
        let image::Inner { raw, block, relevant } = inner;
        device.destroy_image(raw);
        heaps.free(block);
        dispose_guard(relevant);
    }

    /// Recycle dropped resources. Destroys exactly what was pending when the
    /// call started — every pending raw object through the device, every
    /// pending block through the allocator — and then drains both escape
    /// terminals, making what client code dropped implicitly since the last
    /// cleanup the pending lists for the next call. The caller guarantees
    /// that the device no longer uses any pending resource and that the same
    /// device and allocator are supplied that the pending resources were
    /// created from: every pending raw object is live in the device and
    /// every pending block is live in the allocator.
    pub fn cleanup<D: Device, H: Heaps>(&mut self, device: &mut D, heaps: &mut H)
        requires
            old(device).inv(),
            old(heaps).inv(),
            buffer::raws_of(old(self).pending_buffers()).subset_of(
                old(device).model().buffers,
            ),
            image::raws_of(old(self).pending_images()).subset_of(old(device).model().images),
            buffer::blocks_of(old(self).pending_buffers()).add(
                image::blocks_of(old(self).pending_images()),
            ).subset_of(old(heaps).model().blocks),
        ensures
            final(device).inv(),
            final(heaps).inv(),
            final(device).model().buffers == old(device).model().buffers.sub(
                buffer::raws_of(old(self).pending_buffers()),
            ),
            final(device).model().images == old(device).model().images.sub(
                image::raws_of(old(self).pending_images()),
            ),
            final(device).model().buffer_reqs == old(device).model().buffer_reqs,
            final(device).model().image_reqs == old(device).model().image_reqs,
            final(heaps).model().blocks == old(heaps).model().blocks.sub(
                buffer::blocks_of(old(self).pending_buffers()).add(
                    image::blocks_of(old(self).pending_images()),
                ),
            ),
            final(heaps).model().requests == old(heaps).model().requests,
    {
        let ghost orig_buffers = self.dropped_buffers@;
        let ghost orig_images = self.dropped_images@;
        let ghost orig_dev = device.model();
        let ghost orig_heaps = heaps.model();
        while self.dropped_buffers.len() > 0
            invariant
                device.inv(),
                heaps.inv(),
                self.dropped_images@ == orig_images,
                buffer::raws_of(self.dropped_buffers@).subset_of(device.model().buffers),
                buffer::blocks_of(self.dropped_buffers@).add(
                    image::blocks_of(orig_images),
                ).subset_of(heaps.model().blocks),
                device.model().buffers.sub(buffer::raws_of(self.dropped_buffers@))
                    == orig_dev.buffers.sub(buffer::raws_of(orig_buffers)),
                heaps.model().blocks.sub(
                    buffer::blocks_of(self.dropped_buffers@).add(image::blocks_of(orig_images)),
                ) == orig_heaps.blocks.sub(
                    buffer::blocks_of(orig_buffers).add(image::blocks_of(orig_images)),
                ),
                device.model().images == orig_dev.images,
                device.model().buffer_reqs == orig_dev.buffer_reqs,
                device.model().image_reqs == orig_dev.image_reqs,
                heaps.model().requests == orig_heaps.requests,
            decreases self.dropped_buffers@.len(),
        {
            let ghost cur = self.dropped_buffers@;
            let inner = self.dropped_buffers.pop().unwrap();
            proof {
                assert(inner == cur.last());
                assert(self.dropped_buffers@ == cur.drop_last());
                let ghost rest = cur.drop_last();
                assert(buffer::raws_of(cur) == buffer::raws_of(rest).insert(inner.raw));
                assert(buffer::blocks_of(cur) == buffer::blocks_of(rest).insert(inner.block));
                lemma_release_step(buffer::raws_of(rest), device.model().buffers, inner.raw);
                lemma_insert_add(buffer::blocks_of(rest), image::blocks_of(orig_images), inner.block);
                lemma_release_step(
                    buffer::blocks_of(rest).add(image::blocks_of(orig_images)),
                    heaps.model().blocks,
                    inner.block,
                );
            }
            Self::destroy_buffer_inner(inner, device, heaps);
        }
        proof {
            assert(buffer::raws_of(self.dropped_buffers@) =~= Multiset::<u64>::empty());
            assert(buffer::blocks_of(self.dropped_buffers@) =~= Multiset::<MemoryBlock>::empty());
            assert(buffer::blocks_of(self.dropped_buffers@).add(image::blocks_of(orig_images))
                =~= image::blocks_of(orig_images));
            lemma_release_nothing(device.model().buffers);
        }
        while self.dropped_images.len() > 0
            invariant
                device.inv(),
                heaps.inv(),
                image::raws_of(self.dropped_images@).subset_of(device.model().images),
                image::blocks_of(self.dropped_images@).subset_of(heaps.model().blocks),
                device.model().images.sub(image::raws_of(self.dropped_images@))
                    == orig_dev.images.sub(image::raws_of(orig_images)),
                heaps.model().blocks.sub(image::blocks_of(self.dropped_images@))
                    == orig_heaps.blocks.sub(
                    buffer::blocks_of(orig_buffers).add(image::blocks_of(orig_images)),
                ),
                device.model().buffers == orig_dev.buffers.sub(buffer::raws_of(orig_buffers)),
                device.model().buffer_reqs == orig_dev.buffer_reqs,
                device.model().image_reqs == orig_dev.image_reqs,
                heaps.model().requests == orig_heaps.requests,
            decreases self.dropped_images@.len(),
        {
            let ghost cur = self.dropped_images@;
            let inner = self.dropped_images.pop().unwrap();
            proof {
                assert(inner == cur.last());
                assert(self.dropped_images@ == cur.drop_last());
                let ghost rest = cur.drop_last();
                assert(image::raws_of(cur) == image::raws_of(rest).insert(inner.raw));
                assert(image::blocks_of(cur) == image::blocks_of(rest).insert(inner.block));
                lemma_release_step(image::raws_of(rest), device.model().images, inner.raw);
                lemma_release_step(image::blocks_of(rest), heaps.model().blocks, inner.block);
            }
            Self::destroy_image_inner(inner, device, heaps);
        }
        proof {
            assert(image::raws_of(self.dropped_images@) =~= Multiset::<u64>::empty());
            assert(image::blocks_of(self.dropped_images@) =~= Multiset::<MemoryBlock>::empty());
            lemma_release_nothing(device.model().images);
            lemma_release_nothing(heaps.model().blocks);
        }
        self.dropped_buffers = self.buffers.drain();
        self.dropped_images = self.images.drain();
    }
}

} // verus!

