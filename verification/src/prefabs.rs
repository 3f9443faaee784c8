use crate::gpu::{BufferId, BufferWrite};
use crate::handle::ArenaError;
use crate::instance::{batch_words, raw_words, InstanceRaw};
use crate::model::{DrawCall, Material, Mesh};
use crate::structs::MeshType;
use vstd::prelude::*;

verus! {

/// One draw batch: an instance buffer, what it draws, and how many
/// instances of the buffer are live.
#[derive(Debug)]
pub struct Prefab {
    /// Number of live instances; the buffer's live region is `0..length`.
    pub length: u32,
    pub buffer: BufferId,
    pub mesh_type: MeshType,
    /// Number of instances the buffer was allocated for.
    pub capacity: u32,
    /// Whether the buffer was created open to later writes.
    pub dynamic: bool,
    /// The tag that handles to this batch carry.
    pub generation: u64,
}

impl Prefab {
    /// The live region lies within what was allocated.
    pub open spec fn wf(self) -> bool {
        self.length <= self.capacity
    }

    /// This batch with `length` live instances and everything else unchanged.
    pub open spec fn with_length(self, length: u32) -> Prefab {
        Prefab { length, ..self }
    }

    /// Why an update with `count` raw instances is refused, if it is.
    pub open spec fn update_refusal(self, count: nat) -> Option<ArenaError> {
        if !self.dynamic {
            Some(ArenaError::StaticBufferMutation)
        } else if count > self.capacity {
            Some(ArenaError::CapacityExceeded)
        } else {
            None
        }
    }

    /// A batch over a buffer that was allocated for `capacity` instances
    /// and filled with `length` of them.
    pub fn new(
        buffer: BufferId,
        mesh_type: MeshType,
        length: u32,
        capacity: u32,
        dynamic: bool,
        generation: u64,
    ) -> (prefab: Prefab)
        requires
            length <= capacity,
        ensures
            prefab == (Prefab { length, buffer, mesh_type, capacity, dynamic, generation }),
            prefab.wf(),
    {
        Prefab { length, buffer, mesh_type, capacity, dynamic, generation }
    }

    /// Replaces the batch's instances by `instances`.
    ///
    /// On success the batch counts `instances.len()` live instances and the
    /// returned write, once performed, puts them at the start of the buffer.
    /// A static batch, or more instances than the buffer holds, is refused
    /// and leaves the batch as it was.
    pub fn update_buffer(&mut self, instances: &Vec<InstanceRaw>) -> (result: Result<
        BufferWrite,
        ArenaError,
    >)
        requires
            old(self).wf(),
        ensures
            final(self).wf(),
            match result {
                Ok(write) => old(self).update_refusal(instances@.len()) is None && *final(self)
                    == old(self).with_length(instances@.len() as u32) && write.buffer == old(
                    self,
                ).buffer && write.offset == 0 && write.contents@ == batch_words(instances@),
                Err(error) => old(self).update_refusal(instances@.len()) == Some(error)
                    && *final(self) == *old(self),
            },
    {
        if !self.dynamic {
            return Err(ArenaError::StaticBufferMutation);
        }
        if instances.len() > self.capacity as usize {
            return Err(ArenaError::CapacityExceeded);
        }
        self.length = instances.len() as u32;
        Ok(BufferWrite { buffer: self.buffer, offset: 0, contents: raw_words(instances) })
    }

    /// The draws that render the batch: its live instances of each mesh of
    /// a model, of its custom mesh, or of the shared sprite quad.
    pub open spec fn draws(self, materials: Seq<Material>, sprite: Mesh) -> Seq<DrawCall> {
        match self.mesh_type {
            MeshType::Model(model) => model.draws(self.buffer, self.length),
            MeshType::Mesh(mesh) => seq![
                mesh.draw(materials[mesh.material_idx as int], self.buffer, self.length),
            ],
            MeshType::Sprite(material_idx) => seq![
                sprite.draw(materials[material_idx as int], self.buffer, self.length),
            ],
        }
    }

    /// Lists the draws that render the batch. `materials` are the
    /// materials of the asset server, `sprite` its shared quad.
    pub fn draw(&self, materials: &Vec<Material>, sprite: &Mesh) -> (calls: Vec<DrawCall>)
        requires
            self.mesh_type.resolves(materials@),
        ensures
            calls@ == self.draws(materials@, *sprite),
    {
        match &self.mesh_type {
            MeshType::Model(model) => model.draw_model_instanced(self.buffer, self.length),
            MeshType::Mesh(mesh) => {
                let mut calls: Vec<DrawCall> = Vec::new();
                calls.push(
                    mesh.draw_mesh_instanced(&materials[mesh.material_idx], self.buffer, self.length),
                );
                assert(calls@ =~= self.draws(materials@, *sprite));
                calls
            },
            MeshType::Sprite(material_idx) => {
                let mut calls: Vec<DrawCall> = Vec::new();
                calls.push(
                    sprite.draw_mesh_instanced(&materials[*material_idx], self.buffer, self.length),
                );
                assert(calls@ =~= self.draws(materials@, *sprite));
                calls
            },
        }
    }
}

} // verus!
