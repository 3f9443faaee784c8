use vstd::prelude::*;

verus! {

/// A stable reference to one slot of the prefab arena.
///
/// `index` is the slot, `generation` the tag the slot was given when the
/// batch was created. A slot that is evicted and filled again gets a new
/// tag, so a handle kept from before no longer matches it.
#[derive(Clone, Copy, Debug, PartialEq, Eq, Structural)]
pub struct Handle {
    pub index: usize,
    pub generation: u64,
}

impl Handle {
    /// The handle an instance carries before it has been submitted to the arena.
    pub open spec fn unassigned() -> Handle {
        Handle { index: 0, generation: 0 }
    }

    /// Builds the handle carried by instances that belong to no batch yet.
    pub fn none() -> (handle: Handle)
        ensures
            handle == Handle::unassigned(),
    {
        Handle { index: 0, generation: 0 }
    }

    /// Whether this is the handle of an instance that belongs to no batch.
    pub fn is_none(&self) -> (unset: bool)
        ensures
            unset == (*self == Handle::unassigned()),
    {
        self.index == 0 && self.generation == 0
    }
}

/// Why an operation on the arena was refused.
#[derive(Clone, Copy, Debug, PartialEq, Eq, Structural)]
pub enum ArenaError {
    /// The handle names no live batch: it was never issued, was evicted, or
    /// its slot has since been given to another batch.
    InvalidHandle,
    /// The batch was created without the right to be rewritten.
    StaticBufferMutation,
    /// More instances were supplied than the batch's buffer was allocated for.
    CapacityExceeded,
}

} // verus!
