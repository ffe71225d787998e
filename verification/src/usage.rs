//! Usage intent of a resource.
//!
//! The manager does not interpret what a resource is for: a [`Usage`] value
//! supplies the native flags handed to object creation and the memory
//! property requirements handed to the allocator. Clients implement the
//! trait for their own usage types; [`UsageValue`] gives both words
//! directly.

use vstd::prelude::*;

verus! {

/// What a resource's intended use asks of the device and the allocator.
pub trait Usage: Sized {
    /// The native flags `flags` returns.
    spec fn spec_flags(&self) -> u32;

    /// The memory properties `memory` returns.
    spec fn spec_memory(&self) -> u32;

    /// Native usage flags for object creation.
    fn flags(&self) -> (flags: u32)
        ensures
            flags == self.spec_flags(),
    ;

    /// Memory property requirements for allocation.
    fn memory(&self) -> (properties: u32)
        ensures
            properties == self.spec_memory(),
    ;
}

/// A usage given directly as the two flag words.
#[derive(Clone, Copy, Debug, PartialEq, Eq, Structural)]
pub struct UsageValue {
    pub flag_bits: u32,
    pub memory_bits: u32,
}

impl Usage for UsageValue {
    open spec fn spec_flags(&self) -> u32 {
        self.flag_bits
    }

    open spec fn spec_memory(&self) -> u32 {
        self.memory_bits
    }

    fn flags(&self) -> u32 {
        self.flag_bits
    }

    fn memory(&self) -> u32 {
        self.memory_bits
    }
}

} // verus!
