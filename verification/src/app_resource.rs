use crate::assets::{instance_upload, new_batch, AssetServer};
use crate::gpu::{BufferId, BufferInit, BufferUsage};
use crate::handle::Handle;
use crate::instance::{Instance, Matrix};
use crate::model::Mesh;
use crate::resources::{ElementState, KeyCode, MouseButton, MouseClickType, WindowEvents};
use crate::structs::{mesh_words, CameraController, Heading, MeshType, Vertex};
use vstd::prelude::*;

verus! {

/// What the window reports between two frames, reduced to what the engine reacts to.
#[derive(Clone, Copy, Debug, PartialEq, Eq, Structural)]
pub enum WindowInput {
    /// A key went down or came up; `key` is missing where the key has no code.
    Keyboard { key: Option<KeyCode>, state: ElementState },
    /// The wheel was turned by `scroll`, a single-precision bit pattern in pixels.
    MouseWheel { scroll: u32 },
    /// A mouse button went down or came up.
    MouseInput { button: MouseButton, state: ElementState },
    /// Anything else.
    Other,
}

/// The engine's state that gameplay code works with.
pub struct App {
    pub asset_server: AssetServer,
    pub camera_controller: CameraController,
    pub window_events: WindowEvents,
}

impl App {
    /// The window events after they took `event`, but for the key events.
    pub open spec fn events_after(events: WindowEvents, event: WindowInput) -> WindowEvents {
        match event {
            WindowInput::MouseInput { button, state } => WindowEvents {
                left_mouse: if button == MouseButton::Left {
                    MouseClickType::after(state)
                } else {
                    events.left_mouse
                },
                right_mouse: if button == MouseButton::Right {
                    MouseClickType::after(state)
                } else {
                    events.right_mouse
                },
                middle_mouse: if button == MouseButton::Middle {
                    MouseClickType::after(state)
                } else {
                    events.middle_mouse
                },
                ..events
            },
            _ => events,
        }
    }

    /// The key events of the frame after `event` was taken.
    pub open spec fn keys_after(keys: Seq<(KeyCode, ElementState)>, event: WindowInput) -> Seq<
        (KeyCode, ElementState),
    > {
        match event {
            WindowInput::Keyboard { key: Some(key), state } => keys.push((key, state)),
            _ => keys,
        }
    }

    /// The camera controller after it took `event`.
    pub open spec fn controller_after(controller: CameraController, event: WindowInput)
        -> CameraController {
        match event {
            WindowInput::Keyboard { key: Some(key), state } => match Heading::of(key) {
                Some(heading) => controller.heading_set(heading, CameraController::amount(state)),
                None => controller,
            },
            WindowInput::MouseWheel { scroll } => CameraController { scroll, ..controller },
            _ => controller,
        }
    }

    /// Whether `event` is one the engine reacts to: a key that moves the
    /// camera, the wheel, or a mouse button.
    pub open spec fn handles(event: WindowInput) -> bool {
        match event {
            WindowInput::Keyboard { key: Some(key), state } => Heading::of(key) is Some,
            WindowInput::MouseWheel { scroll } => true,
            WindowInput::MouseInput { button, state } => true,
            _ => false,
        }
    }

    /// Takes one window event and says whether the engine reacted to it.
    ///
    /// A key with a code is recorded among the frame's key events and
    /// passed to the camera controller; the wheel sets the controller's
    /// scroll; a mouse button sets that button's state.
    pub fn input(&mut self, event: WindowInput) -> (handled: bool)
        ensures
            handled == App::handles(event),
            final(self).camera_controller == App::controller_after(
                old(self).camera_controller,
                event,
            ),
            final(self).window_events.keys_pressed@ == App::keys_after(
                old(self).window_events.keys_pressed@,
                event,
            ),
            final(self).window_events.left_mouse == App::events_after(
                old(self).window_events,
                event,
            ).left_mouse,
            final(self).window_events.right_mouse == App::events_after(
                old(self).window_events,
                event,
            ).right_mouse,
            final(self).window_events.middle_mouse == App::events_after(
                old(self).window_events,
                event,
            ).middle_mouse,
            final(self).window_events.screen_mouse_pos == old(self).window_events.screen_mouse_pos,
            final(self).window_events.world_mouse_pos == old(self).window_events.world_mouse_pos,
            final(self).window_events.aspect_ratio == old(self).window_events.aspect_ratio,
            final(self).window_events.mouse_ray_direction == old(
                self,
            ).window_events.mouse_ray_direction,
            final(self).asset_server == old(self).asset_server,
    {
        match event {
            WindowInput::Keyboard { key: Some(key), state } => {
                self.window_events.key_input(key, state);
                self.camera_controller.process_keyboard(key, state)
            },
            WindowInput::MouseWheel { scroll } => {
                self.camera_controller.process_scroll(scroll);
                true
            },
            WindowInput::MouseInput { button, state } => {
                self.window_events.mouse_input(button, state);
                true
            },
            _ => false,
        }
    }

    /// Creates a static batch that draws one line segment.
    ///
    /// `line` is the segment's mesh, `model` the model matrix of an
    /// instance at rest. The returned requests create the vertex, index
    /// and instance buffers.
    pub fn draw_line_segment(
        &mut self,
        line: (Vec<Vertex>, Vec<u32>),
        model: Matrix,
        material_idx: usize,
    ) -> (created: (Handle, BufferInit, BufferInit, BufferInit))
        requires
            old(self).asset_server.wf(),
            old(self).asset_server.has_room(),
            line.0@.len() > 0,
            0 < line.1@.len() <= u32::MAX,
            material_idx < old(self).asset_server.materials().len(),
        ensures
            final(self).asset_server.wf(),
            final(self).camera_controller == old(self).camera_controller,
            final(self).window_events == old(self).window_events,
            old(self).asset_server.arena().created(
                final(self).asset_server.arena(),
                created.0,
                new_batch(
                    BufferId((old(self).asset_server.next_buffer() + 2) as u64),
                    MeshType::Mesh(
                        Mesh {
                            vertex_buffer: BufferId(old(self).asset_server.next_buffer()),
                            index_buffer: BufferId(
                                (old(self).asset_server.next_buffer() + 1) as u64,
                            ),
                            num_elements: line.1@.len() as u32,
                            material_idx,
                        },
                    ),
                    seq![Instance::initial()],
                    false,
                    created.0.generation,
                ),
            ),
            created.1.buffer == BufferId(old(self).asset_server.next_buffer()),
            created.1.contents@ == mesh_words(line.0@),
            created.1.usage == BufferUsage::Vertex,
            created.2.buffer == BufferId((old(self).asset_server.next_buffer() + 1) as u64),
            created.2.contents@ == line.1@,
            created.2.usage == BufferUsage::Index,
            instance_upload(
                created.3,
                BufferId((old(self).asset_server.next_buffer() + 2) as u64),
                seq![Instance::initial()],
                seq![model],
                false,
            ),
    {
        let mut instances: Vec<Instance> = Vec::new();
        instances.push(Instance::default());
        let mut models: Vec<Matrix> = Vec::new();
        models.push(model);
        proof {
            assert(instances@ =~= seq![Instance::initial()]);
            assert(models@ =~= seq![model]);
            crate::instance::lemma_raw_batch_len(instances@, models@);
        }
        self.asset_server.build_mesh(line, &mut instances, &models, material_idx, false)
    }
}

} // verus!
