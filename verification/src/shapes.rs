use crate::instance::ONE;
use crate::primitives::{quad, quad_indices, triangles_over};
use crate::structs::Vertex;
use vstd::prelude::*;

verus! {

/// The twelve triangles of a box whose corners are numbered so that bit 0
/// of a corner's number picks the upper x, bit 1 the upper y, and bit 2
/// the lower z: top, bottom, left, right, front, back.
pub open spec fn cube_indices() -> Seq<u32> {
    seq![
        7u32, 6u32, 2u32, 2u32, 3u32, 7u32,
        0u32, 4u32, 5u32, 5u32, 1u32, 0u32,
        0u32, 2u32, 6u32, 6u32, 4u32, 0u32,
        7u32, 3u32, 1u32, 1u32, 5u32, 7u32,
        3u32, 2u32, 0u32, 0u32, 1u32, 3u32,
        4u32, 6u32, 7u32, 7u32, 5u32, 4u32,
    ]
}

/// The vertex at a corner of a box, with the texture coordinate zero.
pub open spec fn corner(x: u32, y: u32, z: u32) -> Vertex {
    Vertex { position: [x, y, z], tex_coords: [0u32, 0u32] }
}

/// The eight corners of the box between `lo` and `hi`.
pub open spec fn cube_vertices(lo: [u32; 3], hi: [u32; 3]) -> Seq<Vertex> {
    seq![
        corner(lo[0], lo[1], hi[2]),
        corner(hi[0], lo[1], hi[2]),
        corner(lo[0], hi[1], hi[2]),
        corner(hi[0], hi[1], hi[2]),
        corner(lo[0], lo[1], lo[2]),
        corner(hi[0], lo[1], lo[2]),
        corner(lo[0], hi[1], lo[2]),
        corner(hi[0], hi[1], lo[2]),
    ]
}

/// The four vertices of the strip that draws the segment from `start` to
/// `end`: both ends, and both ends moved along x to `start_x_moved` and
/// `end_x_moved`.
pub open spec fn line_vertices(start: [u32; 3], end: [u32; 3], start_x_moved: u32, end_x_moved: u32) -> Seq<
    Vertex,
> {
    seq![
        Vertex { position: [end[0], end[1], end[2]], tex_coords: [0u32, ONE] },
        Vertex { position: [start_x_moved, start[1], start[2]], tex_coords: [0u32, 0u32] },
        Vertex { position: [end_x_moved, end[1], end[2]], tex_coords: [ONE, ONE] },
        Vertex { position: [start[0], start[1], start[2]], tex_coords: [ONE, 0u32] },
    ]
}

/// The strip that draws the segment from `start` to `end`. `start_x_moved` and
/// `end_x_moved` are the x coordinates of the two ends moved sideways by
/// the strip's width.
pub fn line_3d(start: [u32; 3], end: [u32; 3], start_x_moved: u32, end_x_moved: u32) -> (mesh: (
    Vec<Vertex>,
    Vec<u32>,
))
    ensures
        mesh.0@ == line_vertices(start, end, start_x_moved, end_x_moved),
        mesh.1@ == quad_indices(),
        triangles_over(mesh.1@, mesh.0@.len()),
{
    let mut vertices: Vec<Vertex> = Vec::new();
    vertices.push(Vertex::new([end[0], end[1], end[2]], [0, ONE]));
    vertices.push(Vertex::new([start_x_moved, start[1], start[2]], [0, 0]));
    vertices.push(Vertex::new([end_x_moved, end[1], end[2]], [ONE, ONE]));
    vertices.push(Vertex::new([start[0], start[1], start[2]], [ONE, 0]));
    assert(vertices@ =~= line_vertices(start, end, start_x_moved, end_x_moved));
    (vertices, quad())
}

/// The box between the corners `lo` and `hi`.
pub fn cube(lo: [u32; 3], hi: [u32; 3]) -> (mesh: (Vec<Vertex>, Vec<u32>))
    ensures
        mesh.0@ == cube_vertices(lo, hi),
        mesh.1@ == cube_indices(),
        triangles_over(mesh.1@, mesh.0@.len()),
{
    let indices: Vec<u32> = vec![
        7, 6, 2, 2, 3, 7,
        0, 4, 5, 5, 1, 0,
        0, 2, 6, 6, 4, 0,
        7, 3, 1, 1, 5, 7,
        3, 2, 0, 0, 1, 3,
        4, 6, 7, 7, 5, 4,
    ];
    let mut vertices: Vec<Vertex> = Vec::new();
    vertices.push(Vertex::new([lo[0], lo[1], hi[2]], [0, 0]));
    vertices.push(Vertex::new([hi[0], lo[1], hi[2]], [0, 0]));
    vertices.push(Vertex::new([lo[0], hi[1], hi[2]], [0, 0]));
    vertices.push(Vertex::new([hi[0], hi[1], hi[2]], [0, 0]));
    vertices.push(Vertex::new([lo[0], lo[1], lo[2]], [0, 0]));
    vertices.push(Vertex::new([hi[0], lo[1], lo[2]], [0, 0]));
    vertices.push(Vertex::new([lo[0], hi[1], lo[2]], [0, 0]));
    vertices.push(Vertex::new([hi[0], hi[1], lo[2]], [0, 0]));
    assert(vertices@ =~= cube_vertices(lo, hi));
    assert(indices@ =~= cube_indices());
    (vertices, indices)
}

} // verus!
