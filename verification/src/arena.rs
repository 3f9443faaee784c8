use crate::handle::{ArenaError, Handle};
use crate::prefabs::Prefab;
use vstd::prelude::*;

verus! {

/// The prefab arena as a mathematical value: which slots hold which batch,
/// which slot the next batch goes to, and the tag it will get.
pub struct Arena {
    pub slots: Map<usize, Prefab>,
    pub vacant: usize,
    pub next_generation: u64,
}

/// One operation on the arena.
pub enum ArenaStep {
    /// A batch was created and `handle` issued for it.
    Create { handle: Handle, prefab: Prefab },
    /// The batch of `handle` was rewritten with `count` instances.
    Update { handle: Handle, count: u32 },
    /// The batch of `handle` was evicted.
    Evict { handle: Handle },
    /// Every batch was evicted.
    EvictAll,
}

impl Arena {
    /// The empty arena.
    pub open spec fn empty() -> Arena {
        Arena { slots: Map::empty(), vacant: 0, next_generation: 1 }
    }

    /// Whether `handle` names a batch of this arena: its slot is in use and
    /// carries the handle's tag.
    pub open spec fn live(self, handle: Handle) -> bool {
        self.slots.contains_key(handle.index) && self.slots[handle.index].generation
            == handle.generation
    }

    /// The batch that a live handle names.
    pub open spec fn prefab(self, handle: Handle) -> Prefab
        recommends
            self.live(handle),
    {
        self.slots[handle.index]
    }

    /// Every batch is well formed and carries a tag that was issued before;
    /// tags start at 1, and the vacant slot is not in use.
    pub open spec fn wf(self) -> bool {
        &&& self.next_generation >= 1
        &&& !self.slots.contains_key(self.vacant)
        &&& forall|index: usize| #[trigger]
            self.slots.contains_key(index) ==> self.slots[index].wf() && 1
                <= self.slots[index].generation < self.next_generation
    }

    /// Why an update of `handle` with `count` raw instances is refused, if it is.
    pub open spec fn update_refusal(self, handle: Handle, count: nat) -> Option<ArenaError> {
        if !self.live(handle) {
            Some(ArenaError::InvalidHandle)
        } else {
            self.prefab(handle).update_refusal(count)
        }
    }

    /// `post` is this arena after `prefab` was put into the vacant slot and
    /// `handle` issued for it, with the next unissued tag.
    pub open spec fn created(self, post: Arena, handle: Handle, prefab: Prefab) -> bool {
        &&& handle.index == self.vacant
        &&& handle.generation == self.next_generation
        &&& prefab.generation == handle.generation
        &&& prefab.wf()
        &&& post.slots == self.slots.insert(handle.index, prefab)
        &&& post.next_generation == self.next_generation + 1
        &&& !post.slots.contains_key(post.vacant)
    }

    /// `post` is this arena after the batch of the live `handle` was
    /// rewritten with `count` instances.
    pub open spec fn updated(self, post: Arena, handle: Handle, count: u32) -> bool {
        &&& self.update_refusal(handle, count as nat) is None
        &&& post.slots == self.slots.insert(handle.index, self.prefab(handle).with_length(count))
        &&& post.vacant == self.vacant
        &&& post.next_generation == self.next_generation
    }

    /// `post` is this arena after the batch of the live `handle` was taken
    /// out; its slot is the next to be filled.
    pub open spec fn evicted(self, post: Arena, handle: Handle) -> bool {
        &&& self.live(handle)
        &&& post.slots == self.slots.remove(handle.index)
        &&& post.vacant == handle.index
        &&& post.next_generation == self.next_generation
    }

    /// `post` is this arena after every batch was taken out.
    pub open spec fn evicted_all(self, post: Arena) -> bool {
        &&& post.slots == Map::<usize, Prefab>::empty()
        &&& post.vacant == 0
        &&& post.next_generation == self.next_generation
    }

    /// `post` is this arena after the operation `step`.
    pub open spec fn stepped(self, post: Arena, step: ArenaStep) -> bool {
        match step {
            ArenaStep::Create { handle, prefab } => self.created(post, handle, prefab),
            ArenaStep::Update { handle, count } => self.updated(post, handle, count),
            ArenaStep::Evict { handle } => self.evicted(post, handle),
            ArenaStep::EvictAll => self.evicted_all(post),
        }
    }
}

impl ArenaStep {
    /// Whether this operation leaves the batch of `handle` in the arena:
    /// it is neither the eviction of that handle nor the eviction of all.
    pub open spec fn spares(self, handle: Handle) -> bool {
        match self {
            ArenaStep::Evict { handle: evicted } => evicted != handle,
            ArenaStep::EvictAll => false,
            _ => true,
        }
    }
}

/// `states` is a history of the arena under the operations `steps`:
/// `steps[i]` leads from `states[i]` to `states[i + 1]`.
pub open spec fn history(states: Seq<Arena>, steps: Seq<ArenaStep>) -> bool {
    &&& states.len() == steps.len() + 1
    &&& forall|i: int| 0 <= i < steps.len() ==> (#[trigger] states[i]).stepped(states[i + 1], steps[i])
}

/// The handle of an instance that belongs to no batch names no batch:
/// in a well-formed arena it is never live, whichever slots are in use.
pub proof fn lemma_unassigned_never_live(arena: Arena)
    requires
        arena.wf(),
    ensures
        !arena.live(Handle::unassigned()),
        forall|count: nat| #[trigger]
            arena.update_refusal(Handle::unassigned(), count) == Some(ArenaError::InvalidHandle),
{
    if arena.slots.contains_key(0) {
        assert(arena.slots[0].generation >= 1);
    }
}

/// Every operation keeps the arena well formed.
pub proof fn lemma_step_keeps_wf(pre: Arena, post: Arena, step: ArenaStep)
    requires
        pre.wf(),
        pre.stepped(post, step),
    ensures
        post.wf(),
{
    match step {
        ArenaStep::Create { handle, prefab } => {
            assert forall|index: usize| #[trigger] post.slots.contains_key(index) implies post.slots[index].wf()
                && 1 <= post.slots[index].generation < post.next_generation by {
                if index != handle.index {
                    assert(pre.slots.contains_key(index));
                }
            }
        },
        ArenaStep::Update { handle, count } => {
            assert forall|index: usize| #[trigger] post.slots.contains_key(index) implies post.slots[index].wf()
                && 1 <= post.slots[index].generation < post.next_generation by {
                assert(pre.slots.contains_key(index));
            }
        },
        ArenaStep::Evict { handle } => {
            assert forall|index: usize| #[trigger] post.slots.contains_key(index) implies post.slots[index].wf()
                && 1 <= post.slots[index].generation < post.next_generation by {
                assert(pre.slots.contains_key(index));
            }
        },
        ArenaStep::EvictAll => {},
    }
}

/// A handle stays valid until it is evicted: through any history of
/// creations, updates and evictions of other handles, a live handle stays
/// live and keeps naming the same buffer, mesh, capacity and kind of batch.
pub proof fn lemma_handle_stability(states: Seq<Arena>, steps: Seq<ArenaStep>, handle: Handle)
    requires
        history(states, steps),
        states[0].wf(),
        states[0].live(handle),
        forall|i: int| 0 <= i < steps.len() ==> (#[trigger] steps[i]).spares(handle),
    ensures
        forall|i: int|
            0 <= i < states.len() ==> {
                let state = #[trigger] states[i];
                &&& state.wf()
                &&& state.live(handle)
                &&& state.prefab(handle).buffer == states[0].prefab(handle).buffer
                &&& state.prefab(handle).mesh_type == states[0].prefab(handle).mesh_type
                &&& state.prefab(handle).capacity == states[0].prefab(handle).capacity
                &&& state.prefab(handle).dynamic == states[0].prefab(handle).dynamic
            },
    decreases steps.len(),
{
    if steps.len() > 0 {
        let earlier = states.drop_last();
        let before = steps.drop_last();
        assert forall|i: int| 0 <= i < before.len() implies (#[trigger] earlier[i]).stepped(
            earlier[i + 1],
            before[i],
        ) by {
            assert(states[i].stepped(states[i + 1], steps[i]));
        }
        assert forall|i: int| 0 <= i < before.len() implies (#[trigger] before[i]).spares(
            handle,
        ) by {
            assert(steps[i].spares(handle));
        }
        lemma_handle_stability(earlier, before, handle);
        let last = steps.len() - 1;
        let pre = states[last];
        let post = states[last + 1];
        assert(pre == earlier[last]);
        assert(pre.stepped(post, steps[last]));
        assert(steps[last].spares(handle));
        lemma_step_keeps_wf(pre, post, steps[last]);
        assert forall|i: int| 0 <= i < states.len() implies {
            let state = #[trigger] states[i];
            &&& state.wf()
            &&& state.live(handle)
            &&& state.prefab(handle).buffer == states[0].prefab(handle).buffer
            &&& state.prefab(handle).mesh_type == states[0].prefab(handle).mesh_type
            &&& state.prefab(handle).capacity == states[0].prefab(handle).capacity
            &&& state.prefab(handle).dynamic == states[0].prefab(handle).dynamic
        } by {
            if i < last + 1 {
                assert(states[i] == earlier[i]);
            }
        }
    }
}

/// An evicted handle never becomes valid again: once a handle whose tag was
/// issued is not live, no history of operations makes it live, whichever
/// slots are filled again.
pub proof fn lemma_stale_handle_stays_invalid(
    states: Seq<Arena>,
    steps: Seq<ArenaStep>,
    handle: Handle,
)
    requires
        history(states, steps),
        states[0].wf(),
        !states[0].live(handle),
        handle.generation < states[0].next_generation,
    ensures
        forall|i: int| 0 <= i < states.len() ==> !(#[trigger] states[i]).live(handle),
        forall|i: int, count: nat|
            0 <= i < states.len() ==> #[trigger] states[i].update_refusal(handle, count) == Some(
                ArenaError::InvalidHandle,
            ),
{
    lemma_stale_handle_induction(states, steps, handle);
}

proof fn lemma_stale_handle_induction(states: Seq<Arena>, steps: Seq<ArenaStep>, handle: Handle)
    requires
        history(states, steps),
        states[0].wf(),
        !states[0].live(handle),
        handle.generation < states[0].next_generation,
    ensures
        forall|i: int|
            0 <= i < states.len() ==> {
                let state = #[trigger] states[i];
                &&& state.wf()
                &&& !state.live(handle)
                &&& handle.generation < state.next_generation
            },
    decreases steps.len(),
{
    if steps.len() > 0 {
        let earlier = states.drop_last();
        let before = steps.drop_last();
        assert forall|i: int| 0 <= i < before.len() implies (#[trigger] earlier[i]).stepped(
            earlier[i + 1],
            before[i],
        ) by {
            assert(states[i].stepped(states[i + 1], steps[i]));
        }
        lemma_stale_handle_induction(earlier, before, handle);
        let last = steps.len() - 1;
        let pre = states[last];
        let post = states[last + 1];
        assert(pre == earlier[last]);
        assert(pre.stepped(post, steps[last]));
        lemma_step_keeps_wf(pre, post, steps[last]);
        assert forall|i: int| 0 <= i < states.len() implies {
            let state = #[trigger] states[i];
            &&& state.wf()
            &&& !state.live(handle)
            &&& handle.generation < state.next_generation
        } by {
            if i < last + 1 {
                assert(states[i] == earlier[i]);
            }
        }
    }
}

/// A freed slot is reused, and the old handle does not alias the new batch:
/// the creation that follows the eviction of `old` issues a handle with the
/// same slot index and another tag; `old` is then not live, and an update
/// through it is refused as an invalid handle.
pub proof fn lemma_slot_reuse(
    pre: Arena,
    freed: Arena,
    post: Arena,
    old: Handle,
    new: Handle,
    prefab: Prefab,
)
    requires
        pre.wf(),
        pre.evicted(freed, old),
        freed.created(post, new, prefab),
    ensures
        new.index == old.index,
        new.generation != old.generation,
        post.live(new),
        !post.live(old),
        forall|count: nat| #[trigger]
            post.update_refusal(old, count) == Some(ArenaError::InvalidHandle),
{
    assert(pre.slots.contains_key(old.index));
}

} // verus!
