//! Deferred resource reclamation and memory binding for externally allocated
//! objects.
//!
//! Resource handles minted by [`resources::Resources`] are freely movable and
//! droppable by client code that holds no destruction context; the underlying
//! native object and its memory block are released later, in a batched
//! [`resources::Resources::cleanup`] call made with the owning device and
//! allocator in hand. Handles dropped without an explicit destroy call funnel
//! their payload back to the manager through the [`escape`] channel.

use vstd::prelude::*;

pub mod buffer;
pub mod device;
pub mod escape;
pub mod guard;
pub mod heap;
pub mod image;
pub mod resources;
pub mod usage;

verus! {

/// Why a resource could not be created.
#[derive(Clone, Copy, Debug, PartialEq, Eq, Structural)]
pub enum ResourceError {
    /// The device refused to create the raw object.
    DeviceCreation,
    /// The allocator found no suitable memory block. The raw object created
    /// earlier in the same call has been destroyed before this is returned.
    Allocation,
    /// The device refused to bind the freshly allocated block to the raw
    /// object, although its requirements were just queried. Neither the raw
    /// object nor the block is leaked.
    BindFailure,
}

} // verus!
