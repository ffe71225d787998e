//! The memory-heap allocator capability.
//!
//! The manager does not allocate memory itself: it asks an allocator for a
//! block matching the device-reported requirements and frees the block when
//! the resource is destroyed. The allocator is abstract ([`Heaps`]); its
//! observable state is a [`HeapsModel`]: the multiset of live blocks and the
//! log of allocation requests it was asked to satisfy. [`MockHeaps`] is a
//! verified in-memory allocator for exercising the manager.

use vstd::prelude::*;

use vstd::multiset::Multiset;

use crate::ResourceError;

verus! {

broadcast use vstd::seq_lib::group_to_multiset_ensures;

/// An allocator-issued descriptor of a memory region: the memory object it
/// lives in and the byte range inside it. A block is exclusively owned by
/// one bound resource until it is freed.
#[derive(Clone, Copy, Debug, PartialEq, Eq, Structural)]
pub struct MemoryBlock {
    pub memory: u64,
    pub start: u64,
    pub end: u64,
}

/// One allocation request, exactly as the allocator received it.
#[derive(Clone, Copy, Debug, PartialEq, Eq, Structural)]
pub struct AllocRequest {
    pub type_mask: u32,
    pub properties: u32,
    pub size: u64,
    pub align: u64,
}

/// Abstract state of an allocator: the blocks currently live and the log of
/// requests made of it.
pub struct HeapsModel {
    pub blocks: Multiset<MemoryBlock>,
    pub requests: Seq<AllocRequest>,
}

/// The allocator capability the manager needs: allocate a block for given
/// requirements, free it when its resource dies.
pub trait Heaps: Sized {
    /// Internal consistency of the allocator.
    spec fn inv(&self) -> bool;

    /// The allocator's observable state.
    spec fn model(&self) -> HeapsModel;

    /// Ask for a block satisfying the type mask, the memory properties, the
    /// size and the alignment. Every call is logged in the request log,
    /// succeed or fail. A fresh block covers at least `size` bytes.
    fn allocate(
        &mut self,
        type_mask: u32,
        properties: u32,
        size: u64,
        align: u64,
    ) -> (r: Result<MemoryBlock, ResourceError>)
        requires
            old(self).inv(),
        ensures
            final(self).inv(),
            final(self).model().requests == old(self).model().requests.push(
                AllocRequest { type_mask, properties, size, align },
            ),
            match r {
                Ok(block) => {
                    &&& !old(self).model().blocks.contains(block)
                    &&& final(self).model().blocks == old(self).model().blocks.insert(block)
                    &&& block.start <= block.end
                    &&& size <= block.end - block.start
                },
                Err(e) => {
                    &&& e == ResourceError::Allocation
                    &&& final(self).model().blocks == old(self).model().blocks
                },
            },
    ;

    /// Free a live block. Freeing is infallible at this layer.
    fn free(&mut self, block: MemoryBlock)
        requires
            old(self).inv(),
            old(self).model().blocks.contains(block),
        ensures
            final(self).inv(),
            final(self).model().blocks == old(self).model().blocks.remove(block),
            final(self).model().requests == old(self).model().requests,
    ;
}

/// Index of a block in a vector known to contain it.
fn find_block(blocks: &Vec<MemoryBlock>, block: MemoryBlock) -> (index: usize)
    requires
        blocks@.contains(block),
    ensures
        index < blocks@.len(),
        blocks@[index as int] == block,
{
    let mut i: usize = 0;
    while i < blocks.len()
        invariant
            i <= blocks@.len(),
            blocks@.contains(block),
            forall|j: int| 0 <= j < i ==> blocks@[j] != block,
        decreases blocks@.len() - i,
    {
        if blocks[i] == block {
            return i;
        }
        i = i + 1;
    }
    proof {
        let j = choose|j: int| 0 <= j < blocks@.len() && blocks@[j] == block;
        assert(false);
    }
    0
}

/// A verified in-memory allocator: hands out distinct blocks, logs every
/// request, and can be told to refuse allocations, for exercising the
/// manager's error paths.
pub struct MockHeaps {
    next_memory: u64,
    live_blocks: Vec<MemoryBlock>,
    requests: Vec<AllocRequest>,
    fail_allocation: bool,
    allocated_total: u64,
    freed_total: u64,
}

impl MockHeaps {
    /// How many allocations have succeeded so far.
    pub closed spec fn spec_allocated_total(&self) -> u64 {
        self.allocated_total
    }

    /// How many blocks have been freed so far.
    pub closed spec fn spec_freed_total(&self) -> u64 {
        self.freed_total
    }

    /// Whether allocation is currently told to fail.
    pub closed spec fn spec_fail_allocation(&self) -> bool {
        self.fail_allocation
    }

    /// An empty allocator that refuses nothing.
    pub fn new() -> (heaps: MockHeaps)
        ensures
            heaps.inv(),
            heaps.model().blocks == Multiset::<MemoryBlock>::empty(),
            heaps.model().requests == Seq::<AllocRequest>::empty(),
            heaps.spec_allocated_total() == 0,
            heaps.spec_freed_total() == 0,
            !heaps.spec_fail_allocation(),
    {
        let heaps = MockHeaps {
            next_memory: 0,
            live_blocks: Vec::new(),
            requests: Vec::new(),
            fail_allocation: false,
            allocated_total: 0,
            freed_total: 0,
        };
        proof {
            assert(heaps.live_blocks@.to_multiset() =~= Multiset::<MemoryBlock>::empty());
        }
        heaps
    }

    /// Make every following allocation fail (or stop doing so).
    pub fn set_fail_allocation(&mut self, fail: bool)
        requires
            old(self).inv(),
        ensures
            final(self).inv(),
            final(self).model() == old(self).model(),
            final(self).spec_allocated_total() == old(self).spec_allocated_total(),
            final(self).spec_freed_total() == old(self).spec_freed_total(),
            final(self).spec_fail_allocation() == fail,
    {
        self.fail_allocation = fail;
    }

    /// Number of live blocks.
    pub fn live_block_count(&self) -> (count: usize)
        ensures
            count == self.model().blocks.len(),
    {
        proof {
            assert(self.live_blocks@.to_multiset().len() == self.live_blocks@.len());
        }
        self.live_blocks.len()
    }

    /// Number of allocations that succeeded.
    pub fn allocated_total(&self) -> (count: u64)
        ensures
            count == self.spec_allocated_total(),
    {
        self.allocated_total
    }

    /// Number of blocks freed.
    pub fn freed_total(&self) -> (count: u64)
        ensures
            count == self.spec_freed_total(),
    {
        self.freed_total
    }

    /// Number of allocation requests received, failed ones included.
    pub fn request_count(&self) -> (count: usize)
        ensures
            count == self.model().requests.len(),
    {
        self.requests.len()
    }

    /// The request at a position of the log.
    pub fn request_at(&self, index: usize) -> (request: AllocRequest)
        requires
            index < self.model().requests.len(),
        ensures
            request == self.model().requests[index as int],
    {
        self.requests[index]
    }
}

impl Heaps for MockHeaps {
    closed spec fn inv(&self) -> bool {
        &&& forall|i: int|
            0 <= i < self.live_blocks@.len() ==> (#[trigger] self.live_blocks@[i]).memory
                < self.next_memory
        &&& self.freed_total + self.live_blocks@.len() == self.allocated_total
        &&& self.allocated_total == self.next_memory
    }

    closed spec fn model(&self) -> HeapsModel {
        HeapsModel { blocks: self.live_blocks@.to_multiset(), requests: self.requests@ }
    }

    fn allocate(
        &mut self,
        type_mask: u32,
        properties: u32,
        size: u64,
        align: u64,
    ) -> (r: Result<MemoryBlock, ResourceError>)
        ensures
            r is Ok <==> (!old(self).spec_fail_allocation() && old(self).spec_allocated_total()
                < u64::MAX),
    {
        self.requests.push(AllocRequest { type_mask, properties, size, align });
        if self.fail_allocation || self.next_memory == u64::MAX {
            return Err(ResourceError::Allocation);
        }
        let block = MemoryBlock { memory: self.next_memory, start: 0, end: size };
        self.next_memory = self.next_memory + 1;
        self.allocated_total = self.allocated_total + 1;
        let ghost before = self.live_blocks@;
        self.live_blocks.push(block);
        proof {
            assert(!before.to_multiset().contains(block)) by {
                if before.to_multiset().contains(block) {
                    let j = choose|j: int| 0 <= j < before.len() && before[j] == block;
                    assert(before[j].memory < block.memory);
                }
            }
            assert(self.live_blocks@.to_multiset() =~= before.to_multiset().insert(block));
        }
        Ok(block)
    }

    fn free(&mut self, block: MemoryBlock) {
        proof {
            assert(self.live_blocks@.contains(block));
        }
        let index = find_block(&self.live_blocks, block);
        let ghost before = self.live_blocks@;
        self.live_blocks.remove(index);
        self.freed_total = self.freed_total + 1;
        proof {
            assert(self.live_blocks@.to_multiset() =~= before.to_multiset().remove(block));
            assert forall|i: int| 0 <= i < self.live_blocks@.len() implies (
            #[trigger] self.live_blocks@[i]).memory < self.next_memory by {
                if i < index {
                    assert(self.live_blocks@[i] == before[i]);
                } else {
                    assert(self.live_blocks@[i] == before[i + 1]);
                }
            }
        }
    }
}

} // verus!
