//! Image resources: the public handle, its creation descriptor, and the
//! bound inner representation the manager reclaims.

use vstd::prelude::*;

use vstd::multiset::Multiset;

use crate::escape::Escape;
use crate::heap::MemoryBlock;

verus! {

/// Dimensionality and extent of an image: width and layers, width, height,
/// layers and samples, or width, height and depth.
#[derive(Clone, Copy, Debug, PartialEq, Eq, Structural)]
pub enum Kind {
    D1(u32, u16),
    D2(u32, u32, u16, u8),
    D3(u32, u32, u32),
}

/// How the image's texels are laid out in memory.
#[derive(Clone, Copy, Debug, PartialEq, Eq, Structural)]
pub enum Tiling {
    Linear,
    Optimal,
}

/// Descriptor of an image's creation parameters: immutable, queryable,
/// carries no ownership.
#[derive(Clone, Copy, Debug, PartialEq, Eq, Structural)]
pub struct Info {
    pub align: u64,
    pub kind: Kind,
    pub levels: u8,
    pub format: u32,
    pub tiling: Tiling,
    pub view_caps: u32,
    pub usage: u32,
}

/// The bound native image underlying a handle: the raw object, its memory
/// block and the leak guard. The three are created together and always freed
/// together; raw object and block are never separated.
pub struct Inner {
    pub raw: u64,
    pub block: MemoryBlock,
    pub relevant: relevant::Relevant,
}

/// The raw object handles of a pending list, as a multiset.
pub open spec fn raws_of(inners: Seq<Inner>) -> Multiset<u64>
    decreases inners.len(),
{
    if inners.len() == 0 {
        Multiset::empty()
    } else {
        raws_of(inners.drop_last()).insert(inners.last().raw)
    }
}

/// The memory blocks of a pending list, as a multiset.
pub open spec fn blocks_of(inners: Seq<Inner>) -> Multiset<MemoryBlock>
    decreases inners.len(),
{
    if inners.len() == 0 {
        Multiset::empty()
    } else {
        blocks_of(inners.drop_last()).insert(inners.last().block)
    }
}

/// An image handle. Freely movable and droppable by client code: dropping it
/// funnels the inner representation back to the manager through the escape
/// channel, to be reclaimed by a later cleanup call.
pub struct Image {
    pub inner: Escape<Inner>,
    pub info: Info,
}

impl Image {
    /// The handle still carries its payload.
    pub open spec fn wf(&self) -> bool {
        self.inner.wf()
    }
}

} // verus!
