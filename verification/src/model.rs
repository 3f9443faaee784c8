use crate::gpu::{BindGroupId, BufferId};
use vstd::prelude::*;

verus! {

/// A compiled material.
#[derive(Clone, Copy, Debug, PartialEq, Eq, Structural)]
pub struct Material {
    pub bind_group: BindGroupId,
}

/// Vertex and index data resident on the device, with the material it is drawn with.
#[derive(Clone, Copy, Debug, PartialEq, Eq, Structural)]
pub struct Mesh {
    pub vertex_buffer: BufferId,
    pub index_buffer: BufferId,
    pub num_elements: u32,
    pub material_idx: usize,
}

/// A loaded model: several meshes, each drawn with one of the model's own materials.
#[derive(Debug)]
pub struct Model {
    pub meshes: Vec<Mesh>,
    pub materials: Vec<Material>,
}

/// One indexed, instanced draw.
#[derive(Clone, Copy, Debug, PartialEq, Eq, Structural)]
pub struct DrawCall {
    pub vertex_buffer: BufferId,
    pub index_buffer: BufferId,
    pub instance_buffer: BufferId,
    pub bind_group: BindGroupId,
    /// The draw covers indices `0..num_elements`.
    pub num_elements: u32,
    /// The draw covers instances `0..instances`.
    pub instances: u32,
}

impl Mesh {
    /// The draw that renders `instances` copies of this mesh with `material`.
    pub open spec fn draw(self, material: Material, instance_buffer: BufferId, instances: u32)
        -> DrawCall {
        DrawCall {
            vertex_buffer: self.vertex_buffer,
            index_buffer: self.index_buffer,
            instance_buffer,
            bind_group: material.bind_group,
            num_elements: self.num_elements,
            instances,
        }
    }

    /// The draw that renders `instances` copies of this mesh with `material`.
    pub fn draw_mesh_instanced(
        &self,
        material: &Material,
        instance_buffer: BufferId,
        instances: u32,
    ) -> (call: DrawCall)
        ensures
            call == self.draw(*material, instance_buffer, instances),
    {
        DrawCall {
            vertex_buffer: self.vertex_buffer,
            index_buffer: self.index_buffer,
            instance_buffer,
            bind_group: material.bind_group,
            num_elements: self.num_elements,
            instances,
        }
    }

    /// The draw that renders this mesh once.
    pub fn draw_mesh(&self, material: &Material, instance_buffer: BufferId) -> (call: DrawCall)
        ensures
            call == self.draw(*material, instance_buffer, 1),
    {
        self.draw_mesh_instanced(material, instance_buffer, 1)
    }
}

impl Model {
    /// Every mesh names one of the model's own materials.
    pub open spec fn wf(self) -> bool {
        forall|i: int|
            0 <= i < self.meshes@.len() ==> (#[trigger] self.meshes@[i]).material_idx
                < self.materials@.len()
    }

    /// The draws that render `instances` copies of the model: one per mesh,
    /// in mesh order, each with the material the mesh names.
    pub open spec fn draws(self, instance_buffer: BufferId, instances: u32) -> Seq<DrawCall> {
        Seq::new(
            self.meshes@.len(),
            |i: int|
                self.meshes@[i].draw(
                    self.materials@[self.meshes@[i].material_idx as int],
                    instance_buffer,
                    instances,
                ),
        )
    }

    /// Puts a model together, or returns nothing when a mesh names a
    /// material the model does not have.
    pub fn new(meshes: Vec<Mesh>, materials: Vec<Material>) -> (model: Option<Model>)
        ensures
            model is Some <==> (Model { meshes, materials }).wf(),
            model matches Some(m) ==> m.meshes == meshes && m.materials == materials,
    {
        let mut i: usize = 0;
        while i < meshes.len()
            invariant
                i <= meshes@.len(),
                forall|j: int|
                    0 <= j < i ==> (#[trigger] meshes@[j]).material_idx < materials@.len(),
            decreases meshes@.len() - i,
        {
            if meshes[i].material_idx >= materials.len() {
                assert(!(Model { meshes, materials }).wf()) by {
                    let model = Model { meshes, materials };
                    assert(model.meshes@[i as int].material_idx >= model.materials@.len());
                }
                return None;
            }
            i += 1;
        }
        Some(Model { meshes, materials })
    }

    /// The draws that render `instances` copies of the model, one per mesh.
    pub fn draw_model_instanced(&self, instance_buffer: BufferId, instances: u32) -> (calls: Vec<
        DrawCall,
    >)
        requires
            self.wf(),
        ensures
            calls@ == self.draws(instance_buffer, instances),
    {
        let mut calls: Vec<DrawCall> = Vec::new();
        let mut i: usize = 0;
        while i < self.meshes.len()
            invariant
                self.wf(),
                i <= self.meshes@.len(),
                calls@ == self.draws(instance_buffer, instances).take(i as int),
            decreases self.meshes@.len() - i,
        {
            let mesh = &self.meshes[i];
            let material = &self.materials[mesh.material_idx];
            calls.push(mesh.draw_mesh_instanced(material, instance_buffer, instances));
            i += 1;
            assert(calls@ =~= self.draws(instance_buffer, instances).take(i as int));
        }
        assert(self.draws(instance_buffer, instances).take(i as int) =~= self.draws(
            instance_buffer,
            instances,
        ));
        calls
    }

    /// The draws that render the model once.
    pub fn draw_model(&self, instance_buffer: BufferId) -> (calls: Vec<DrawCall>)
        requires
            self.wf(),
        ensures
            calls@ == self.draws(instance_buffer, 1),
    {
        self.draw_model_instanced(instance_buffer, 1)
    }
}

} // verus!
