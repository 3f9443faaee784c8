use crate::arena::Arena;
use crate::gpu::{BufferId, BufferInit, BufferUsage, BufferWrite};
use crate::handle::{ArenaError, Handle};
use crate::instance::{
    allocation_words, batch_words, live_count, padded_words, raw_batch, to_raw_batch, Instance,
    InstanceRaw, Matrix,
};
use crate::model::{Material, Mesh, Model};
use crate::prefabs::Prefab;
use crate::slots::{
    slab_clear, slab_entries, slab_get, slab_get_mut, slab_insert, slab_keys, slab_new,
    slab_try_remove, slab_vacant, slab_vacant_key, MAX_SLOTS,
};
use crate::structs::{mesh_words, vertex_words, MeshType, Vertex};
use slab::Slab;
use vstd::prelude::*;

verus! {

/// Owns every draw batch and compiled material, and hands out the handles
/// and buffer names by which they are known.
///
/// The server decides; it does not touch the graphics device. Each
/// operation that needs a buffer created or rewritten returns the request,
/// and the caller carries it out before the next frame is drawn.
pub struct AssetServer {
    material_assets: Vec<Material>,
    prefab_slab: Slab<Prefab>,
    build_path: String,
    sprite_mesh: Mesh,
    next_generation: u64,
    next_buffer: u64,
}

/// `instances` with every handle set to `handle` and nothing else changed.
pub open spec fn assigned(instances: Seq<Instance>, handle: Handle) -> Seq<Instance> {
    Seq::new(instances.len(), |i: int| Instance { prefab_index: handle, ..instances[i] })
}

/// The batch that a creation puts into the arena: it counts the enabled
/// instances, and its buffer is allocated for all instances of the list.
pub open spec fn new_batch(
    buffer: BufferId,
    mesh_type: MeshType,
    instances: Seq<Instance>,
    is_updating: bool,
    generation: u64,
) -> Prefab {
    Prefab {
        length: live_count(instances) as u32,
        buffer,
        mesh_type,
        capacity: instances.len() as u32,
        dynamic: is_updating,
        generation,
    }
}

/// The request that creates the instance buffer of a new batch: sized
/// for all instances of the list, it starts with the raw forms of the
/// enabled ones, and is open to writes exactly when the batch is going to
/// be updated.
pub open spec fn instance_upload(
    upload: BufferInit,
    buffer: BufferId,
    instances: Seq<Instance>,
    models: Seq<Matrix>,
    is_updating: bool,
) -> bool {
    &&& upload.buffer == buffer
    &&& upload.contents@ == allocation_words(raw_batch(instances, models), instances.len())
    &&& upload.usage == BufferUsage::for_instances(is_updating)
}

impl AssetServer {
    /// The arena of draw batches.
    pub closed spec fn arena(&self) -> Arena {
        Arena {
            slots: slab_entries(self.prefab_slab),
            vacant: slab_vacant_key(self.prefab_slab),
            next_generation: self.next_generation,
        }
    }

    /// The compiled materials, in the order they were compiled.
    pub closed spec fn materials(&self) -> Seq<Material> {
        self.material_assets@
    }

    /// The number of the next buffer name to be handed out.
    pub closed spec fn next_buffer(&self) -> u64 {
        self.next_buffer
    }

    /// The shared unit quad that sprite batches draw.
    pub closed spec fn sprite(&self) -> Mesh {
        self.sprite_mesh
    }

    /// The directory assets are resolved against.
    pub closed spec fn path(&self) -> Seq<char> {
        self.build_path@
    }

    /// The arena is well formed and every batch can be drawn. No two
    /// batches share an instance buffer, and the names of the instance
    /// buffers and of the sprite quad's buffers will not be handed out
    /// again.
    pub open spec fn wf(&self) -> bool {
        &&& self.arena().wf()
        &&& self.sprite().vertex_buffer.0 < self.next_buffer()
        &&& self.sprite().index_buffer.0 < self.next_buffer()
        &&& forall|index: usize| #[trigger]
            self.arena().slots.contains_key(index) ==> self.arena().slots[index].mesh_type.resolves(
                self.materials(),
            ) && self.arena().slots[index].buffer.0 < self.next_buffer()
        &&& forall|i: usize, j: usize|
            i != j && #[trigger] self.arena().slots.contains_key(i)
                && #[trigger] self.arena().slots.contains_key(j) ==> self.arena().slots[i].buffer
                != self.arena().slots[j].buffer
    }

    /// Whether one more batch can be created: the slot it would get lies
    /// below `MAX_SLOTS`, and a tag and three buffer names are left to
    /// hand out.
    pub open spec fn has_room(&self) -> bool {
        self.arena().vacant < MAX_SLOTS && self.arena().next_generation < u64::MAX
            && self.next_buffer() <= u64::MAX - 3
    }

    /// Whether nothing but the arena differs between `self` and `other`.
    pub open spec fn same_assets(&self, other: &AssetServer) -> bool {
        &&& self.materials() == other.materials()
        &&& self.next_buffer() == other.next_buffer()
        &&& self.sprite() == other.sprite()
        &&& self.path() == other.path()
    }

    /// A server without batches or materials.
    ///
    /// `sprite` is the vertex and index data of the unit quad that sprite
    /// batches share. The two returned requests create its vertex buffer
    /// and its index buffer.
    pub fn new(build_path: String, sprite: (Vec<Vertex>, Vec<u32>)) -> (created: (
        AssetServer,
        BufferInit,
        BufferInit,
    ))
        requires
            sprite.1@.len() <= u32::MAX,
        ensures
            created.0.wf(),
            created.0.has_room(),
            created.0.arena() == Arena::empty(),
            created.0.materials() == Seq::<Material>::empty(),
            created.0.path() == build_path@,
            created.0.next_buffer() == 2,
            created.0.sprite() == (Mesh {
                vertex_buffer: BufferId(0),
                index_buffer: BufferId(1),
                num_elements: sprite.1@.len() as u32,
                material_idx: 0,
            }),
            created.1.buffer == BufferId(0),
            created.1.contents@ == mesh_words(sprite.0@),
            created.1.usage == BufferUsage::Vertex,
            created.2.buffer == BufferId(1),
            created.2.contents@ == sprite.1@,
            created.2.usage == BufferUsage::Index,
    {
        let (vertices, indices) = sprite;
        let mesh = Mesh {
            vertex_buffer: BufferId(0),
            index_buffer: BufferId(1),
            num_elements: indices.len() as u32,
            material_idx: 0,
        };
        let vertex_upload = BufferInit {
            buffer: BufferId(0),
            contents: vertex_words(&vertices),
            usage: BufferUsage::Vertex,
        };
        let index_upload = BufferInit {
            buffer: BufferId(1),
            contents: indices,
            usage: BufferUsage::Index,
        };
        let server = AssetServer {
            material_assets: Vec::new(),
            prefab_slab: slab_new(),
            build_path,
            sprite_mesh: mesh,
            next_generation: 1,
            next_buffer: 2,
        };
        (server, vertex_upload, index_upload)
    }

    /// Evicts the batch of `handle` and returns it; its slot is the next to
    /// be filled. A handle that names no live batch is refused and changes
    /// nothing.
    pub fn remove_prefab(&mut self, handle: Handle) -> (result: Result<Prefab, ArenaError>)
        requires
            old(self).wf(),
        ensures
            final(self).wf(),
            final(self).same_assets(old(self)),
            match result {
                Ok(prefab) => old(self).arena().evicted(final(self).arena(), handle) && prefab
                    == old(self).arena().prefab(handle),
                Err(error) => error == ArenaError::InvalidHandle && !old(self).arena().live(handle)
                    && final(self).arena() == old(self).arena(),
            },
    {
        let live = match slab_get(&self.prefab_slab, handle.index) {
            Some(prefab) => prefab.generation == handle.generation,
            None => false,
        };
        if !live {
            return Err(ArenaError::InvalidHandle);
        }
        match slab_try_remove(&mut self.prefab_slab, handle.index) {
            Some(prefab) => {
                proof {
                    let pre = old(self).arena();
                    let post = self.arena();
                    assert forall|index: usize| #[trigger]
                        post.slots.contains_key(index) implies pre.slots.contains_key(index) by {}
                }
                Ok(prefab)
            },
            None => Err(ArenaError::InvalidHandle),
        }
    }

    /// Evicts every batch. Handles issued so far stay invalid for good.
    pub fn clear_all_prefabs(&mut self)
        requires
            old(self).wf(),
        ensures
            final(self).wf(),
            final(self).same_assets(old(self)),
            old(self).arena().evicted_all(final(self).arena()),
    {
        slab_clear(&mut self.prefab_slab);
    }

    /// Adds a compiled material and returns the index it is known by.
    pub fn compile_material(&mut self, material: Material) -> (index: usize)
        requires
            old(self).wf(),
        ensures
            final(self).wf(),
            index == old(self).materials().len(),
            final(self).materials() == old(self).materials().push(material),
            final(self).arena() == old(self).arena(),
            final(self).next_buffer() == old(self).next_buffer(),
            final(self).sprite() == old(self).sprite(),
            final(self).path() == old(self).path(),
    {
        self.material_assets.push(material);
        self.material_assets.len() - 1
    }

    /// Adds compiled materials in order and returns the index of each.
    pub fn compile_materials(&mut self, materials: Vec<Material>) -> (indices: Vec<usize>)
        requires
            old(self).wf(),
        ensures
            final(self).wf(),
            final(self).materials() == old(self).materials() + materials@,
            indices@.len() == materials@.len(),
            forall|i: int|
                0 <= i < indices@.len() ==> #[trigger] indices@[i] == old(self).materials().len()
                    + i,
            final(self).arena() == old(self).arena(),
            final(self).next_buffer() == old(self).next_buffer(),
            final(self).sprite() == old(self).sprite(),
            final(self).path() == old(self).path(),
    {
        let mut indices: Vec<usize> = Vec::new();
        let mut i: usize = 0;
        while i < materials.len()
            invariant
                i <= materials@.len(),
                self.wf(),
                self.materials() == old(self).materials() + materials@.take(i as int),
                indices@.len() == i,
                forall|j: int|
                    0 <= j < i ==> #[trigger] indices@[j] == old(self).materials().len() + j,
                self.arena() == old(self).arena(),
                self.next_buffer() == old(self).next_buffer(),
                self.sprite() == old(self).sprite(),
                self.path() == old(self).path(),
            decreases materials@.len() - i,
        {
            let index = self.compile_material(materials[i]);
            indices.push(index);
            i += 1;
            assert(self.materials() =~= old(self).materials() + materials@.take(i as int));
        }
        assert(materials@.take(i as int) =~= materials@);
        indices
    }

    /// The batch that `handle` names, if it names a live one.
    pub fn get(&self, handle: Handle) -> (found: Option<&Prefab>)
        ensures
            found is Some == self.arena().live(handle),
            found matches Some(prefab) ==> *prefab == self.arena().prefab(handle),
    {
        match slab_get(&self.prefab_slab, handle.index) {
            Some(prefab) => if prefab.generation == handle.generation {
                Some(prefab)
            } else {
                None
            },
            None => None,
        }
    }

    /// Whether `handle` names a live batch.
    pub fn contains(&self, handle: Handle) -> (live: bool)
        ensures
            live == self.arena().live(handle),
    {
        self.get(handle).is_some()
    }

    /// The handles of all live batches, by increasing slot index.
    pub fn handles(&self) -> (handles: Vec<Handle>)
        ensures
            forall|i: int, j: int|
                0 <= i < j < handles@.len() ==> handles@[i].index < handles@[j].index,
            forall|i: int| 0 <= i < handles@.len() ==> self.arena().live(#[trigger] handles@[i]),
            forall|index: usize| #[trigger]
                self.arena().slots.contains_key(index) ==> exists|i: int|
                    0 <= i < handles@.len() && (#[trigger] handles@[i]).index == index,
    {
        let keys = slab_keys(&self.prefab_slab);
        let mut handles: Vec<Handle> = Vec::new();
        let mut i: usize = 0;
        assert forall|k: int| 0 <= k < keys@.len() implies self.arena().slots.contains_key(
            keys@[k],
        ) by {
            assert(keys@.contains(keys@[k]));
        }
        while i < keys.len()
            invariant
                i <= keys@.len(),
                handles@.len() == i,
                forall|a: int, b: int| 0 <= a < b < keys@.len() ==> keys@[a] < keys@[b],
                forall|k: int| 0 <= k < keys@.len() ==> self.arena().slots.contains_key(keys@[k]),
                forall|k: int|
                    0 <= k < i ==> (#[trigger] handles@[k]).index == keys@[k] && self.arena().live(
                        handles@[k],
                    ),
            decreases keys@.len() - i,
        {
            match slab_get(&self.prefab_slab, keys[i]) {
                Some(prefab) => {
                    handles.push(Handle { index: keys[i], generation: prefab.generation });
                },
                None => {
                    assert(self.arena().slots.contains_key(keys@[i as int]));
                },
            }
            i += 1;
        }
        proof {
            assert forall|index: usize| #[trigger]
                self.arena().slots.contains_key(index) implies exists|i: int|
                0 <= i < handles@.len() && (#[trigger] handles@[i]).index == index by {
                assert(keys@.contains(index));
                let k = choose|k: int| 0 <= k < keys@.len() && keys@[k] == index;
                assert(handles@[k].index == index);
            }
        }
        handles
    }

    /// The compiled materials, in the order they were compiled.
    pub fn material_assets(&self) -> (materials: &Vec<Material>)
        ensures
            materials@ == self.materials(),
    {
        &self.material_assets
    }

    /// The shared unit quad that sprite batches draw.
    pub fn sprite_mesh(&self) -> (mesh: &Mesh)
        ensures
            *mesh == self.sprite(),
    {
        &self.sprite_mesh
    }

    /// The directory assets are resolved against.
    pub fn build_path(&self) -> (path: &String)
        ensures
            path@ == self.path(),
    {
        &self.build_path
    }

    /// Whether one more batch can be created.
    pub fn can_create(&self) -> (room: bool)
        ensures
            room == self.has_room(),
    {
        slab_vacant(&self.prefab_slab) < MAX_SLOTS && self.next_generation < u64::MAX
            && self.next_buffer <= u64::MAX - 3
    }

    /// Puts a new batch into the vacant slot and issues its handle: the
    /// part that the three kinds of batch share.
    fn insert_batch(
        &mut self,
        mesh_type: MeshType,
        instances: &mut Vec<Instance>,
        models: &Vec<Matrix>,
        is_updating: bool,
    ) -> (created: (Handle, BufferInit))
        requires
            old(self).wf(),
            old(self).arena().vacant < MAX_SLOTS,
            old(self).arena().next_generation < u64::MAX,
            old(self).next_buffer() < u64::MAX,
            mesh_type.resolves(old(self).materials()),
            models@.len() == old(instances)@.len(),
            old(instances)@.len() <= u32::MAX,
        ensures
            final(self).wf(),
            final(instances)@ == assigned(old(instances)@, created.0),
            old(self).arena().created(
                final(self).arena(),
                created.0,
                new_batch(
                    BufferId(old(self).next_buffer()),
                    mesh_type,
                    old(instances)@,
                    is_updating,
                    created.0.generation,
                ),
            ),
            instance_upload(
                created.1,
                BufferId(old(self).next_buffer()),
                old(instances)@,
                models@,
                is_updating,
            ),
            final(self).next_buffer() == old(self).next_buffer() + 1,
            final(self).materials() == old(self).materials(),
            final(self).sprite() == old(self).sprite(),
            final(self).path() == old(self).path(),
    {
        let raws = to_raw_batch(instances, models);
        let length = raws.len() as u32;
        let buffer = BufferId(self.next_buffer);
        let generation = self.next_generation;
        let capacity = instances.len() as u32;
        let upload = BufferInit {
            buffer,
            contents: padded_words(&raws, instances.len()),
            usage: BufferUsage::instance_usage(is_updating),
        };
        let prefab = Prefab::new(buffer, mesh_type, length, capacity, is_updating, generation);
        let ghost batch = prefab;
        self.next_buffer = self.next_buffer + 1;
        self.next_generation = self.next_generation + 1;
        let key = slab_insert(&mut self.prefab_slab, prefab);
        let handle = Handle { index: key, generation };
        proof {
            let pre = old(self).arena();
            let post = self.arena();
            assert(pre.created(post, handle, batch));
            crate::arena::lemma_step_keeps_wf(
                pre,
                post,
                crate::arena::ArenaStep::Create { handle, prefab: batch },
            );
            assert forall|index: usize| #[trigger]
                post.slots.contains_key(index) implies post.slots[index].mesh_type.resolves(
                self.materials(),
            ) && post.slots[index].buffer.0 < self.next_buffer() by {
                if index != key {
                    assert(pre.slots.contains_key(index));
                }
            }
        }
        assign_handle(instances, handle);
        (handle, upload)
    }

    /// Makes vertex and index data resident: hands out the names of its
    /// two buffers and returns the mesh over them, with the requests that
    /// create the vertex buffer and the index buffer.
    pub fn load_mesh(&mut self, mesh: (Vec<Vertex>, Vec<u32>), material_idx: usize) -> (loaded: (
        Mesh,
        BufferInit,
        BufferInit,
    ))
        requires
            old(self).wf(),
            old(self).next_buffer() <= u64::MAX - 2,
            mesh.1@.len() <= u32::MAX,
        ensures
            final(self).wf(),
            final(self).arena() == old(self).arena(),
            final(self).next_buffer() == old(self).next_buffer() + 2,
            final(self).materials() == old(self).materials(),
            final(self).sprite() == old(self).sprite(),
            final(self).path() == old(self).path(),
            loaded.0 == (Mesh {
                vertex_buffer: BufferId(old(self).next_buffer()),
                index_buffer: BufferId((old(self).next_buffer() + 1) as u64),
                num_elements: mesh.1@.len() as u32,
                material_idx,
            }),
            loaded.1.buffer == BufferId(old(self).next_buffer()),
            loaded.1.contents@ == mesh_words(mesh.0@),
            loaded.1.usage == BufferUsage::Vertex,
            loaded.2.buffer == BufferId((old(self).next_buffer() + 1) as u64),
            loaded.2.contents@ == mesh.1@,
            loaded.2.usage == BufferUsage::Index,
    {
        let (vertices, indices) = mesh;
        let vertex_buffer = BufferId(self.next_buffer);
        let index_buffer = BufferId(self.next_buffer + 1);
        let loaded = Mesh {
            vertex_buffer,
            index_buffer,
            num_elements: indices.len() as u32,
            material_idx,
        };
        let vertex_upload = BufferInit {
            buffer: vertex_buffer,
            contents: vertex_words(&vertices),
            usage: BufferUsage::Vertex,
        };
        let index_upload = BufferInit {
            buffer: index_buffer,
            contents: indices,
            usage: BufferUsage::Index,
        };
        self.next_buffer = self.next_buffer + 2;
        (loaded, vertex_upload, index_upload)
    }

    /// Creates a batch that draws a custom mesh.
    ///
    /// `mesh` is the vertex and index data, `models[i]` the model matrix of
    /// `instances[i]`. Every instance gets the new handle. The returned
    /// requests create the vertex buffer, the index buffer and the instance
    /// buffer, which has room for all instances, holds the enabled ones, and is open to later
    /// updates exactly when `is_updating` is set.
    pub fn build_mesh(
        &mut self,
        mesh: (Vec<Vertex>, Vec<u32>),
        instances: &mut Vec<Instance>,
        models: &Vec<Matrix>,
        material_idx: usize,
        is_updating: bool,
    ) -> (created: (Handle, BufferInit, BufferInit, BufferInit))
        requires
            old(self).wf(),
            old(self).has_room(),
            mesh.0@.len() > 0,
            0 < mesh.1@.len() <= u32::MAX,
            material_idx < old(self).materials().len(),
            models@.len() == old(instances)@.len(),
            old(instances)@.len() <= u32::MAX,
        ensures
            final(self).wf(),
            final(instances)@ == assigned(old(instances)@, created.0),
            old(self).arena().created(
                final(self).arena(),
                created.0,
                new_batch(
                    BufferId((old(self).next_buffer() + 2) as u64),
                    MeshType::Mesh(
                        Mesh {
                            vertex_buffer: BufferId(old(self).next_buffer()),
                            index_buffer: BufferId((old(self).next_buffer() + 1) as u64),
                            num_elements: mesh.1@.len() as u32,
                            material_idx,
                        },
                    ),
                    old(instances)@,
                    is_updating,
                    created.0.generation,
                ),
            ),
            created.1.buffer == BufferId(old(self).next_buffer()),
            created.1.contents@ == mesh_words(mesh.0@),
            created.1.usage == BufferUsage::Vertex,
            created.2.buffer == BufferId((old(self).next_buffer() + 1) as u64),
            created.2.contents@ == mesh.1@,
            created.2.usage == BufferUsage::Index,
            instance_upload(
                created.3,
                BufferId((old(self).next_buffer() + 2) as u64),
                old(instances)@,
                models@,
                is_updating,
            ),
            final(self).next_buffer() == old(self).next_buffer() + 3,
            final(self).materials() == old(self).materials(),
            final(self).sprite() == old(self).sprite(),
            final(self).path() == old(self).path(),
    {
        let (mesh, vertex_upload, index_upload) = self.load_mesh(mesh, material_idx);
        let (handle, instance_upload) = self.insert_batch(
            MeshType::Mesh(mesh),
            instances,
            models,
            is_updating,
        );
        (handle, vertex_upload, index_upload, instance_upload)
    }

    /// Creates a batch that draws a loaded model.
    ///
    /// `models[i]` is the model matrix of `instances[i]`. Every instance
    /// gets the new handle. The returned request creates the instance
    /// buffer, which has room for all instances, holds the enabled ones, and is open to later
    /// updates exactly when `is_updating` is set.
    pub fn create_model_instances(
        &mut self,
        model: Model,
        instances: &mut Vec<Instance>,
        models: &Vec<Matrix>,
        is_updating: bool,
    ) -> (created: (Handle, BufferInit))
        requires
            old(self).wf(),
            old(self).has_room(),
            model.wf(),
            models@.len() == old(instances)@.len(),
            old(instances)@.len() <= u32::MAX,
        ensures
            final(self).wf(),
            final(instances)@ == assigned(old(instances)@, created.0),
            old(self).arena().created(
                final(self).arena(),
                created.0,
                new_batch(
                    BufferId(old(self).next_buffer()),
                    MeshType::Model(model),
                    old(instances)@,
                    is_updating,
                    created.0.generation,
                ),
            ),
            instance_upload(
                created.1,
                BufferId(old(self).next_buffer()),
                old(instances)@,
                models@,
                is_updating,
            ),
            final(self).next_buffer() == old(self).next_buffer() + 1,
            final(self).materials() == old(self).materials(),
            final(self).sprite() == old(self).sprite(),
            final(self).path() == old(self).path(),
    {
        self.insert_batch(MeshType::Model(model), instances, models, is_updating)
    }

    /// Creates a batch of sprites: copies of the shared unit quad, drawn
    /// with the material of index `material_idx`.
    ///
    /// `models[i]` is the model matrix of `instances[i]`. Every instance
    /// gets the new handle. The returned request creates the instance
    /// buffer, which has room for all instances, holds the enabled ones, and is open to later
    /// updates exactly when `is_updating` is set.
    pub fn make_sprites(
        &mut self,
        instances: &mut Vec<Instance>,
        models: &Vec<Matrix>,
        material_idx: usize,
        is_updating: bool,
    ) -> (created: (Handle, BufferInit))
        requires
            old(self).wf(),
            old(self).has_room(),
            material_idx < old(self).materials().len(),
            models@.len() == old(instances)@.len(),
            old(instances)@.len() <= u32::MAX,
        ensures
            final(self).wf(),
            final(instances)@ == assigned(old(instances)@, created.0),
            old(self).arena().created(
                final(self).arena(),
                created.0,
                new_batch(
                    BufferId(old(self).next_buffer()),
                    MeshType::Sprite(material_idx),
                    old(instances)@,
                    is_updating,
                    created.0.generation,
                ),
            ),
            instance_upload(
                created.1,
                BufferId(old(self).next_buffer()),
                old(instances)@,
                models@,
                is_updating,
            ),
            final(self).next_buffer() == old(self).next_buffer() + 1,
            final(self).materials() == old(self).materials(),
            final(self).sprite() == old(self).sprite(),
            final(self).path() == old(self).path(),
    {
        self.insert_batch(MeshType::Sprite(material_idx), instances, models, is_updating)
    }

    /// Rewrites the batch of `handle` with `instances`.
    ///
    /// On success the batch counts `instances.len()` live instances, no
    /// slot or handle changes, and the returned request, once performed,
    /// puts the instances at the start of the batch's buffer. The update is
    /// refused, and nothing changes, when the handle names no live batch,
    /// when the batch was created static, or when there are more instances
    /// than its buffer was allocated for.
    pub fn update(&mut self, handle: Handle, instances: &Vec<InstanceRaw>) -> (result: Result<
        BufferWrite,
        ArenaError,
    >)
        requires
            old(self).wf(),
        ensures
            final(self).wf(),
            final(self).same_assets(old(self)),
            match result {
                Ok(write) => old(self).arena().updated(
                    final(self).arena(),
                    handle,
                    instances@.len() as u32,
                ) && write.buffer == old(self).arena().prefab(handle).buffer && write.offset == 0
                    && write.contents@ == batch_words(instances@),
                Err(error) => old(self).arena().update_refusal(handle, instances@.len()) == Some(
                    error,
                ) && final(self).arena() == old(self).arena(),
            },
    {
        let live = match slab_get(&self.prefab_slab, handle.index) {
            Some(prefab) => prefab.generation == handle.generation,
            None => false,
        };
        if !live {
            return Err(ArenaError::InvalidHandle);
        }
        let ghost pre = self.arena();
        match slab_get_mut(&mut self.prefab_slab, handle.index) {
            Some(prefab) => {
                let result = prefab.update_buffer(instances);
                proof {
                    let post = self.arena();
                    assert(post.slots =~= pre.slots.insert(handle.index, post.slots[handle.index]));
                    if result is Err {
                        assert(post.slots =~= pre.slots);
                    }
                    assert forall|index: usize| #[trigger]
                        post.slots.contains_key(index) implies post.slots[index].mesh_type.resolves(
                        self.materials(),
                    ) && post.slots[index].buffer.0 < self.next_buffer() && post.slots[index].wf()
                        && 1 <= post.slots[index].generation < post.next_generation by {
                        assert(pre.slots.contains_key(index));
                    }
                }
                result
            },
            None => Err(ArenaError::InvalidHandle),
        }
    }
}

/// Sets the handle of every instance of the list.
fn assign_handle(instances: &mut Vec<Instance>, handle: Handle)
    ensures
        final(instances)@ == assigned(old(instances)@, handle),
{
    let mut i: usize = 0;
    while i < instances.len()
        invariant
            i <= instances@.len(),
            instances@.len() == old(instances)@.len(),
            forall|j: int|
                0 <= j < i ==> #[trigger] instances@[j] == (Instance {
                    prefab_index: handle,
                    ..old(instances)@[j]
                }),
            forall|j: int| i <= j < instances@.len() ==> instances@[j] == old(instances)@[j],
        decreases instances@.len() - i,
    {
        let mut instance = instances[i];
        instance.prefab_index = handle;
        instances.set(i, instance);
        i += 1;
    }
    assert(instances@ =~= assigned(old(instances)@, handle));
}

} // verus!
