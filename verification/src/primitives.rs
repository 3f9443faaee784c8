use crate::instance::ONE;
use crate::structs::Vertex;
use vstd::prelude::*;

verus! {

/// The two triangles of a quad whose vertices are listed as lower left,
/// upper left, lower right, upper right.
pub open spec fn quad_indices() -> Seq<u32> {
    seq![2u32, 1u32, 0u32, 1u32, 2u32, 3u32]
}

/// Whether `indices` lists whole triangles over `count` vertices.
pub open spec fn triangles_over(indices: Seq<u32>, count: nat) -> bool {
    indices.len() % 3 == 0 && forall|i: int| 0 <= i < indices.len() ==> indices[i] < count
}

/// The vertex at `(x, y)` in the plane `z = 0` with the given texture coordinate.
pub open spec fn flat_vertex(x: u32, y: u32, u: u32, v: u32) -> Vertex {
    Vertex { position: [x, y, 0u32], tex_coords: [u, v] }
}

/// The vertices of the rectangle between the corners `corner` and `opposite`, the
/// texture stretched between the texture coordinates `tex_1` and `tex_2`.
pub open spec fn rect_vertices(corner: [u32; 2], opposite: [u32; 2], tex_1: [u32; 2], tex_2: [u32; 2]) -> Seq<
    Vertex,
> {
    seq![
        flat_vertex(corner[0], corner[1], tex_1[0], tex_2[1]),
        flat_vertex(corner[0], opposite[1], tex_1[0], tex_1[1]),
        flat_vertex(opposite[0], corner[1], tex_2[0], tex_2[1]),
        flat_vertex(opposite[0], opposite[1], tex_2[0], tex_1[1]),
    ]
}

/// The indices of a quad.
pub fn quad() -> (indices: Vec<u32>)
    ensures
        indices@ == quad_indices(),
        triangles_over(indices@, 4),
{
    let mut indices: Vec<u32> = Vec::new();
    indices.push(2);
    indices.push(1);
    indices.push(0);
    indices.push(1);
    indices.push(2);
    indices.push(3);
    assert(indices@ =~= quad_indices());
    indices
}

/// The rectangle between the corners `corner` and `opposite`, carrying the whole texture.
pub fn rect(corner: [u32; 2], opposite: [u32; 2]) -> (mesh: (Vec<Vertex>, Vec<u32>))
    ensures
        mesh.0@ == rect_vertices(corner, opposite, [0u32, 0u32], [ONE, ONE]),
        mesh.1@ == quad_indices(),
        triangles_over(mesh.1@, mesh.0@.len()),
{
    rect_with_tex_coords(corner, opposite, [0, 0], [ONE, ONE])
}

/// The rectangle between the corners `corner` and `opposite`, carrying the part of
/// the texture between `tex_1` and `tex_2`.
pub fn rect_with_tex_coords(corner: [u32; 2], opposite: [u32; 2], tex_1: [u32; 2], tex_2: [u32; 2]) -> (mesh: (
    Vec<Vertex>,
    Vec<u32>,
))
    ensures
        mesh.0@ == rect_vertices(corner, opposite, tex_1, tex_2),
        mesh.1@ == quad_indices(),
        triangles_over(mesh.1@, mesh.0@.len()),
{
    let mut vertices: Vec<Vertex> = Vec::new();
    vertices.push(Vertex::new([corner[0], corner[1], 0], [tex_1[0], tex_2[1]]));
    vertices.push(Vertex::new([corner[0], opposite[1], 0], [tex_1[0], tex_1[1]]));
    vertices.push(Vertex::new([opposite[0], corner[1], 0], [tex_2[0], tex_2[1]]));
    vertices.push(Vertex::new([opposite[0], opposite[1], 0], [tex_2[0], tex_1[1]]));
    assert(vertices@ =~= rect_vertices(corner, opposite, tex_1, tex_2));
    (vertices, quad())
}

} // verus!
