use crate::gpu::{
    packed_size, VertexAttribute, VertexBufferLayout, VertexFormat, VertexStepMode,
};
use crate::instance::ONE;
use crate::model::{Material, Mesh, Model};
use crate::resources::{ElementState, KeyCode};
use vstd::prelude::*;

verus! {

/// What a batch draws.
#[derive(Debug)]
pub enum MeshType {
    /// A loaded model with its own materials.
    Model(Model),
    /// One custom mesh, drawn with a material of the asset server.
    Mesh(Mesh),
    /// The shared sprite quad, drawn with the material of the given index.
    Sprite(usize),
}

impl MeshType {
    /// Whether what a batch draws can be resolved: a model's meshes name
    /// materials of the model, a custom mesh or a sprite names one of `materials`.
    pub open spec fn resolves(self, materials: Seq<Material>) -> bool {
        match self {
            MeshType::Model(model) => model.wf(),
            MeshType::Mesh(mesh) => mesh.material_idx < materials.len(),
            MeshType::Sprite(material_idx) => material_idx < materials.len(),
        }
    }
}

/// Number of 32-bit words one vertex occupies in a vertex buffer.
pub const VERTEX_WORDS: usize = 5;

/// A mesh vertex: a position and a texture coordinate, each component an
/// IEEE-754 single-precision bit pattern.
#[derive(Clone, Copy, Debug, PartialEq, Eq)]
pub struct Vertex {
    pub position: [u32; 3],
    pub tex_coords: [u32; 2],
}

impl Vertex {
    /// A vertex at `position` with the texture coordinate `tex_coords`.
    pub fn new(position: [u32; 3], tex_coords: [u32; 2]) -> (vertex: Vertex)
        ensures
            vertex.position == position,
            vertex.tex_coords == tex_coords,
    {
        Vertex { position, tex_coords }
    }

    /// The shapes of the attributes of a vertex, in buffer order.
    pub open spec fn formats() -> Seq<VertexFormat> {
        seq![VertexFormat::Float32x3, VertexFormat::Float32x2]
    }

    /// The attributes of a vertex: tightly packed, feeding the shader
    /// locations 0 and 1.
    pub open spec fn attributes() -> Seq<VertexAttribute> {
        seq![
            VertexAttribute { offset: 0, shader_location: 0, format: VertexFormat::Float32x3 },
            VertexAttribute { offset: 12, shader_location: 1, format: VertexFormat::Float32x2 },
        ]
    }

    /// How vertices lie in a vertex buffer: one per vertex, `VERTEX_WORDS`
    /// words apart, the attributes without gaps.
    pub fn desc() -> (layout: VertexBufferLayout)
        ensures
            layout.array_stride == 4 * VERTEX_WORDS,
            layout.array_stride == packed_size(Vertex::formats()),
            layout.step_mode == VertexStepMode::Vertex,
            layout.attributes@ == Vertex::attributes(),
    {
        let mut formats: Vec<VertexFormat> = Vec::new();
        formats.push(VertexFormat::Float32x3);
        formats.push(VertexFormat::Float32x2);
        let layout = VertexBufferLayout::tightly_packed(&formats, 0, VertexStepMode::Vertex);
        proof {
            let all = Vertex::formats();
            assert(formats@ =~= all);
            assert(all.take(0) =~= Seq::<VertexFormat>::empty());
            assert(all.take(1).drop_last() =~= all.take(0));
            assert(all.drop_last() =~= all.take(1));
            assert(packed_size(all.take(0)) == 0);
            assert(packed_size(all.take(1)) == 12);
            assert(packed_size(all) == 20);
            assert(layout.attributes@ =~= Vertex::attributes());
        }
        layout
    }

    /// The words of this vertex in buffer order: position, then texture coordinate.
    pub open spec fn words(self) -> Seq<u32> {
        self.position@ + self.tex_coords@
    }

    /// Appends this vertex to `out` in buffer order.
    pub fn write_words(&self, out: &mut Vec<u32>)
        ensures
            final(out)@ == old(out)@ + self.words(),
    {
        let ghost before = out@;
        out.push(self.position[0]);
        out.push(self.position[1]);
        out.push(self.position[2]);
        out.push(self.tex_coords[0]);
        out.push(self.tex_coords[1]);
        assert(out@ =~= before + self.words());
    }
}

/// The layout and the buffer order agree: the position and the texture
/// coordinate of a vertex lie in the vertex's words at the offsets the
/// layout gives them, and span the bytes of their shapes.
pub proof fn lemma_layout_matches_words(vertex: Vertex, attribute: int)
    requires
        0 <= attribute < 2,
    ensures
        vertex.words().len() == VERTEX_WORDS,
        vertex.words().subrange(
            Vertex::attributes()[attribute].offset as int / 4,
            Vertex::attributes()[attribute].offset as int / 4 + Vertex::attributes()[attribute].format.size() as int
                / 4,
        ) == if attribute == 0 {
            vertex.position@
        } else {
            vertex.tex_coords@
        },
{
    let words = vertex.words();
    if attribute == 0 {
        assert(words.subrange(0, 3) =~= vertex.position@);
    } else {
        assert(words.subrange(3, 5) =~= vertex.tex_coords@);
    }
}

/// The words of a list of vertices, one vertex after the other.
pub open spec fn mesh_words(vertices: Seq<Vertex>) -> Seq<u32>
    decreases vertices.len(),
{
    if vertices.len() == 0 {
        Seq::empty()
    } else {
        mesh_words(vertices.drop_last()) + vertices.last().words()
    }
}

/// A vertex list occupies `VERTEX_WORDS` words per vertex.
pub proof fn lemma_mesh_words_len(vertices: Seq<Vertex>)
    ensures
        mesh_words(vertices).len() == VERTEX_WORDS * vertices.len(),
    decreases vertices.len(),
{
    if vertices.len() > 0 {
        lemma_mesh_words_len(vertices.drop_last());
    }
}

/// Lays a list of vertices out as the words of a vertex buffer.
pub fn vertex_words(vertices: &Vec<Vertex>) -> (words: Vec<u32>)
    ensures
        words@ == mesh_words(vertices@),
        words@.len() == VERTEX_WORDS * vertices@.len(),
{
    let mut words: Vec<u32> = Vec::new();
    let mut i: usize = 0;
    while i < vertices.len()
        invariant
            i <= vertices@.len(),
            words@ == mesh_words(vertices@.take(i as int)),
        decreases vertices@.len() - i,
    {
        proof {
            assert(vertices@.take(i + 1).drop_last() =~= vertices@.take(i as int));
        }
        vertices[i].write_words(&mut words);
        i += 1;
    }
    proof {
        assert(vertices@.take(i as int) =~= vertices@);
        lemma_mesh_words_len(vertices@);
    }
    words
}

/// What the keyboard and mouse currently ask of the camera.
///
/// Every field is an IEEE-754 single-precision bit pattern. The six
/// amounts are one while their key is held and zero otherwise.
#[derive(Clone, Copy, Debug, PartialEq, Eq)]
pub struct CameraController {
    pub amount_left: u32,
    pub amount_right: u32,
    pub amount_forward: u32,
    pub amount_backward: u32,
    pub amount_up: u32,
    pub amount_down: u32,
    pub rotate_horizontal: u32,
    pub rotate_vertical: u32,
    pub scroll: u32,
    pub speed: u32,
    pub sensitivity: u32,
}

/// The directions a key can move the camera in.
#[derive(Clone, Copy, Debug, PartialEq, Eq, Structural)]
pub enum Heading {
    Forward,
    Backward,
    Left,
    Right,
    Up,
    Down,
}

impl Heading {
    /// The direction that `key` moves the camera in, if it moves it at all.
    pub open spec fn of(key: KeyCode) -> Option<Heading> {
        match key {
            KeyCode::W | KeyCode::Up => Some(Heading::Forward),
            KeyCode::S | KeyCode::Down => Some(Heading::Backward),
            KeyCode::A | KeyCode::Left => Some(Heading::Left),
            KeyCode::D | KeyCode::Right => Some(Heading::Right),
            KeyCode::Space => Some(Heading::Up),
            KeyCode::LShift => Some(Heading::Down),
            _ => None,
        }
    }
}

impl CameraController {
    /// The amount a key event sets: one when the key goes down, zero otherwise.
    pub open spec fn amount(state: ElementState) -> u32 {
        if state == ElementState::Pressed {
            ONE
        } else {
            0
        }
    }

    /// This controller with the amount of `heading` set to `amount`.
    pub open spec fn heading_set(self, heading: Heading, amount: u32) -> CameraController {
        match heading {
            Heading::Forward => CameraController { amount_forward: amount, ..self },
            Heading::Backward => CameraController { amount_backward: amount, ..self },
            Heading::Left => CameraController { amount_left: amount, ..self },
            Heading::Right => CameraController { amount_right: amount, ..self },
            Heading::Up => CameraController { amount_up: amount, ..self },
            Heading::Down => CameraController { amount_down: amount, ..self },
        }
    }

    /// A controller at rest with the given speed and sensitivity.
    pub fn new(speed: u32, sensitivity: u32) -> (controller: CameraController)
        ensures
            controller == (CameraController {
                amount_left: 0,
                amount_right: 0,
                amount_forward: 0,
                amount_backward: 0,
                amount_up: 0,
                amount_down: 0,
                rotate_horizontal: 0,
                rotate_vertical: 0,
                scroll: 0,
                speed,
                sensitivity,
            }),
    {
        CameraController {
            amount_left: 0,
            amount_right: 0,
            amount_forward: 0,
            amount_backward: 0,
            amount_up: 0,
            amount_down: 0,
            rotate_horizontal: 0,
            rotate_vertical: 0,
            scroll: 0,
            speed,
            sensitivity,
        }
    }

    /// Takes a key event. A key that moves the camera sets the amount of
    /// its direction and the event counts as handled; any other key
    /// changes nothing and the event is not handled.
    pub fn process_keyboard(&mut self, key: KeyCode, state: ElementState) -> (handled: bool)
        ensures
            handled == Heading::of(key) is Some,
            *final(self) == match Heading::of(key) {
                Some(heading) => old(self).heading_set(heading, CameraController::amount(state)),
                None => *old(self),
            },
    {
        let amount = match state {
            ElementState::Pressed => ONE,
            ElementState::Released => 0,
        };
        match key {
            KeyCode::W | KeyCode::Up => {
                self.amount_forward = amount;
                true
            },
            KeyCode::S | KeyCode::Down => {
                self.amount_backward = amount;
                true
            },
            KeyCode::A | KeyCode::Left => {
                self.amount_left = amount;
                true
            },
            KeyCode::D | KeyCode::Right => {
                self.amount_right = amount;
                true
            },
            KeyCode::Space => {
                self.amount_up = amount;
                true
            },
            KeyCode::LShift => {
                self.amount_down = amount;
                true
            },
            _ => false,
        }
    }

    /// Takes a mouse movement, already narrowed to single precision.
    pub fn process_mouse(&mut self, mouse_dx: u32, mouse_dy: u32)
        ensures
            *final(self) == (CameraController {
                rotate_horizontal: mouse_dx,
                rotate_vertical: mouse_dy,
                ..*old(self)
            }),
    {
        self.rotate_horizontal = mouse_dx;
        self.rotate_vertical = mouse_dy;
    }

    /// Takes a scroll of the wheel, already scaled to pixels.
    pub fn process_scroll(&mut self, scroll: u32)
        ensures
            *final(self) == (CameraController { scroll, ..*old(self) }),
    {
        self.scroll = scroll;
    }
}

} // verus!
