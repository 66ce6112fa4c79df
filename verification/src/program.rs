use crate::camera::{
    next_pitch, next_radius, next_yaw, uniform_written, CameraBuilder, CameraType,
    MouseScrollDelta, PerspectiveCamera, CAMERA_BIND_GROUP, CAMERA_BUFFER, CAMERA_LAYOUT, FIVE,
    FORTY_FIVE, HUNDRED, MAX_PITCH, ONE_TENTH,
};
use crate::context::{
    startup_error, RenderError, StartupError, SurfaceCapabilities, SurfaceConfiguration,
};
use crate::graphics::{
    all_present, resolved, FrameError, FrameOutcome, FrameState, Graphics, SurfaceStatus,
    QUAD_INDEX_BUFFER, QUAD_PIPELINE, QUAD_SHADER, QUAD_VERTEX_BUFFER, WORLD_COLOR_VIEW,
    WORLD_DEPTH_VIEW, WORLD_TEXTURE_BIND_GROUP, WORLD_TEXTURE_LAYOUT,
};
use crate::gui::TexturesDelta;
use crate::math::{TransformUniform, Vec3};
use crate::model::{
    MESH_INDEX_BUFFER, MESH_VERTEX_BUFFER, MODEL_BIND_GROUP, MODEL_LAYOUT,
    MODEL_PIPELINE, MODEL_SHADER, MODEL_TRANSFORM_BUFFER,
};
use crate::registry::{has_label, index_of, Category};
use crate::renderer::{meshes_fault, model_fault, models_fault, scene_fault};
use crate::resource::PhysicalSize;
use crate::vertex_input::{encodes32, ONE, ZERO};
use crate::world::{Mesh, Transform, World};
use vstd::pervasive::unreached;
use vstd::prelude::*;

verus! {

/// Whether a key or a button went down or up.
#[derive(Clone, Copy, Debug, PartialEq, Eq, Structural)]
pub enum ElementState {
    Pressed,
    Released,
}

/// The buttons of the pointing device.
#[derive(Clone, Copy, Debug, PartialEq, Eq, Structural)]
pub enum MouseButton {
    Left,
    Right,
    Middle,
    Other,
}

/// The keys that the program tells apart.
#[derive(Clone, Copy, Debug, PartialEq, Eq, Structural)]
pub enum KeyCode {
    Escape,
    KeyW,
    Other,
}

/// What the window reports.
#[derive(Clone, Copy, Debug, PartialEq, Eq, Structural)]
pub enum WindowEvent {
    CloseRequested,
    KeyboardInput { state: ElementState, key: KeyCode },
    Resized(PhysicalSize),
    MouseInput { button: MouseButton, state: ElementState },
    Other,
}

/// What the pointing device reports: motion in thousandths of a pixel, and
/// the wheel.
#[derive(Clone, Copy, Debug, PartialEq, Eq, Structural)]
pub enum DeviceEvent {
    MouseMotion { delta_x: i32, delta_y: i32 },
    MouseWheel { delta: MouseScrollDelta },
    Other,
}

/// What the event loop hands to the program.
#[derive(Clone, Copy, Debug, PartialEq, Eq, Structural)]
pub enum Event {
    WindowEvent(WindowEvent),
    DeviceEvent(DeviceEvent),
    Other,
}

/// What the event loop has to do after an event: leave, or configure the
/// surface anew.
#[derive(Clone, Copy, Debug, PartialEq, Eq, Structural)]
pub struct Response {
    pub exit: bool,
    pub reconfigure: bool,
}

/// Why an iteration of the program failed.
#[derive(Debug)]
pub enum RunError {
    /// The camera's matrix could not be written.
    Uniform(RenderError),
    /// The frame failed.
    Frame(FrameError),
}

/// Whether the event asks the program to leave: the window is to close, or
/// Escape went down.
pub open spec fn asks_exit(event: Event) -> bool {
    match event {
        Event::WindowEvent(WindowEvent::CloseRequested) => true,
        Event::WindowEvent(
            WindowEvent::KeyboardInput { state: ElementState::Pressed, key: KeyCode::Escape },
        ) => true,
        _ => false,
    }
}

/// The orchestrator, the camera and the world, and whether the primary
/// pointer button is held.
pub struct Program {
    pub world: World,
    pub camera: PerspectiveCamera,
    pub graphics: Graphics,
    pub last_mouse_pos: Option<(i32, i32)>,
}

impl Program {
    /// Sets the program up for a surface of `size` with capabilities `caps`:
    /// the orchestrator with all that a frame draws with, a camera that
    /// orbits the origin at radius 10, whose first view-projection matrix is
    /// `uniform`, and a world of one cube, the matrix of whose transform is
    /// `model_uniform`. It fails where no context can be made, and only
    /// there; and the first frame finds all that it names.
    pub fn new(
        size: PhysicalSize,
        caps: &SurfaceCapabilities,
        uniform: &TransformUniform,
        model_uniform: &TransformUniform,
    ) -> (r: Result<Self, StartupError>)
        ensures
            r is Ok <==> startup_error(size, *caps) is None,
            r matches Err(e) ==> startup_error(size, *caps) == Some(e),
            r matches Ok(program) ==> {
                let ctx = &program.graphics.ctx;
                &&& program.last_mouse_pos is None
                &&& program.graphics.state == FrameState::Idle
                &&& program.graphics.pending_resize is None
                &&& program.graphics.surface_stale
                &&& ctx.surface_config.width == size.width
                &&& ctx.surface_config.height == size.height
                &&& all_present(ctx)
                &&& program.world.models@.len() == 1
                &&& program.world.models@[0].transform == Transform::identity()
                &&& program.camera.radius_spec() == 10_000_000
                &&& program.camera.yaw_spec() == 0
                &&& program.camera.pitch_spec() == MAX_PITCH
                &&& !program.camera.dragging_spec()
                &&& !program.camera.orbiting_spec()
                &&& program.camera.lens() == (
                    Vec3 { x: ZERO, y: ZERO, z: FIVE },
                    Vec3 { x: ZERO, y: ZERO, z: ZERO },
                    Vec3 { x: ZERO, y: ONE, z: ZERO },
                    FORTY_FIVE,
                    ONE,
                    ONE_TENTH,
                    HUNDRED,
                )
                &&& program.camera.bind_group_spec() == 1
                &&& ctx.buffers@.len() == 6
                &&& ctx.textures@.len() == 2
                &&& ctx.texture_views@.len() == 2
                &&& ctx.samplers@.len() == 1
                &&& ctx.bind_group_layouts@.len() == 3
                &&& ctx.bind_groups@.len() == 3
                &&& ctx.shaders@.len() == 2
                &&& ctx.render_pipelines@.len() == 2
                &&& ctx.buffers@[2].0 == CAMERA_BUFFER@
                &&& encodes32(ctx.buffers@[2].1.data@, uniform.words())
                &&& ctx.bind_group_layouts@[1].0 == CAMERA_LAYOUT@
                &&& ctx.bind_groups@[1].0 == CAMERA_BIND_GROUP@
                &&& ctx.buffers@[3].0 == MESH_VERTEX_BUFFER@
                &&& ctx.buffers@[4].0 == MESH_INDEX_BUFFER@
                &&& ctx.buffers@[5].0 == MODEL_TRANSFORM_BUFFER@
                &&& encodes32(ctx.buffers@[5].1.data@, model_uniform.words())
                &&& ctx.render_pipelines@[1].0 == MODEL_PIPELINE@
                &&& ctx.render_pipelines@[1].1.layout@ == seq![1usize, 2usize]
                &&& program.world.models@[0].meshes@ == seq![
                    Mesh { vertex_buffer: 3, index_buffer: 4, num_elements: 36 },
                ]
                &&& program.world.models@[0].pipeline == 1
                &&& program.world.models@[0].bind_group == 2
                &&& program.world.models@[0].bind_group_layout == 2
                &&& program.world.models@[0].transform_buffer == 5
                &&& scene_fault(
                    ctx,
                    program.world.models@,
                    program.camera.bind_group_spec(),
                    resolved(ctx).color_view,
                    resolved(ctx).depth_view,
                ) is None
            },
    {
        let mut graphics = match Graphics::new(size, caps) {
            Ok(graphics) => graphics,
            Err(e) => { return Err(e); },
        };
        proof {
            lemma_labels_distinct();
        }
        let builder = CameraBuilder::new().with_position(Vec3 { x: ZERO, y: ZERO, z: FIVE })
            .with_target(Vec3 { x: ZERO, y: ZERO, z: ZERO }).with_type(
            CameraType::Perspective,
        ).with_radius(10_000_000);
        let camera = match builder.build(&mut graphics.ctx, uniform) {
            Ok(camera) => camera,
            Err(_) => unreached(),
        };
        let ghost ctx2 = graphics.ctx;
        proof {
            assert(ctx2.buffers@[0] == ctx2.buffers@.drop_last()[0]);
            assert(ctx2.buffers@[1] == ctx2.buffers@.drop_last()[1]);
            assert(ctx2.bind_group_layouts@[0] == ctx2.bind_group_layouts@.drop_last()[0]);
            assert(ctx2.bind_groups@[0] == ctx2.bind_groups@.drop_last()[0]);
            assert(ctx2.bind_group_layouts@[1].0 == CAMERA_LAYOUT@);
            assert(has_label(ctx2.bind_group_layouts@, CAMERA_LAYOUT@));
        }
        let world = match World::new(&mut graphics.ctx, model_uniform) {
            Ok(world) => world,
            Err(_) => unreached(),
        };
        proof {
            let ctx = &graphics.ctx;
            let model = world.models@[0];
            assert(ctx.texture_views@[0].0 == WORLD_COLOR_VIEW@);
            assert(ctx.texture_views@[1].0 == WORLD_DEPTH_VIEW@);
            assert(ctx.render_pipelines@[0].0 == QUAD_PIPELINE@);
            assert(ctx.buffers@[0].0 == QUAD_VERTEX_BUFFER@);
            assert(ctx.buffers@[1].0 == QUAD_INDEX_BUFFER@);
            assert(ctx.bind_groups@[0].0 == WORLD_TEXTURE_BIND_GROUP@);
            assert(all_present(ctx));
            assert(world.models@.drop_last() =~= Seq::empty());
            assert(models_fault(ctx, world.models@.drop_last()) is None);
            assert(model.meshes@.drop_last() =~= Seq::empty());
            assert(meshes_fault(ctx, model.meshes@.drop_last()) is None);
            assert(meshes_fault(ctx, model.meshes@) is None);
            assert(model_fault(ctx, model) is None);
            assert(models_fault(ctx, world.models@) is None);
        }
        Ok(Program { world, camera, graphics, last_mouse_pos: None })
    }

    /// Takes one event. The window's wish to close and Escape ask the event
    /// loop to leave. A new size goes to the orchestrator, which takes it at
    /// once between frames and puts it off during one. The primary
    /// button begins and ends a drag. Pointer motion turns the camera while
    /// a drag is under way, and not otherwise; the wheel moves it nearer or
    /// farther. Nothing else has any effect.
    pub fn handle_window_input(&mut self, event: &Event) -> (r: Response)
        ensures
            r.exit == asks_exit(*event),
            final(self).world == old(self).world,
            final(self).camera.same_lens(&old(self).camera),
            match *event {
                Event::WindowEvent(WindowEvent::Resized(size)) => {
                    &&& final(self).camera == old(self).camera
                    &&& final(self).last_mouse_pos == old(self).last_mouse_pos
                    &&& final(self).graphics.state == old(self).graphics.state
                    &&& final(self).graphics.encoder == old(self).graphics.encoder
                    &&& final(self).graphics.renderer == old(self).graphics.renderer
                    &&& final(self).graphics.gui == old(self).graphics.gui
                    &&& final(self).graphics.ctx.same_registry(&old(self).graphics.ctx)
                    &&& r.reconfigure ==> final(self).graphics.pending_resize is None
                    &&& !r.reconfigure && size.width != 0 && size.height != 0
                        ==> final(self).graphics.pending_resize == Some(size)
                    &&& old(self).graphics.ctx.extent_valid()
                        ==> final(self).graphics.ctx.extent_valid()
                    &&& r.reconfigure == (old(self).graphics.state == FrameState::Idle && size.width
                        != 0 && size.height != 0)
                    &&& final(self).graphics.surface_stale == (old(self).graphics.surface_stale
                        || r.reconfigure)
                    &&& r.reconfigure ==> final(self).graphics.ctx.surface_config == (
                    SurfaceConfiguration {
                        width: size.width,
                        height: size.height,
                        ..old(self).graphics.ctx.surface_config
                    })
                    &&& !r.reconfigure ==> final(self).graphics.ctx == old(self).graphics.ctx
                    &&& size.width == 0 || size.height == 0 ==> final(self).graphics == old(
                        self,
                    ).graphics
                },
                Event::WindowEvent(
                    WindowEvent::MouseInput { button: MouseButton::Left, state },
                ) => {
                    &&& !r.reconfigure
                    &&& final(self).graphics == old(self).graphics
                    &&& final(self).camera.dragging_spec() == (state == ElementState::Pressed)
                    &&& final(self).last_mouse_pos == if state == ElementState::Pressed {
                        Some((0i32, 0i32))
                    } else {
                        None
                    }
                    &&& final(self).camera.yaw_spec() == old(self).camera.yaw_spec()
                    &&& final(self).camera.pitch_spec() == old(self).camera.pitch_spec()
                    &&& final(self).camera.radius_spec() == old(self).camera.radius_spec()
                    &&& final(self).camera.orbiting_spec() == old(self).camera.orbiting_spec()
                },
                Event::DeviceEvent(DeviceEvent::MouseMotion { delta_x, delta_y }) => {
                    let turns = old(self).last_mouse_pos is Some && old(
                        self,
                    ).camera.dragging_spec();
                    &&& !r.reconfigure
                    &&& final(self).graphics == old(self).graphics
                    &&& final(self).last_mouse_pos == old(self).last_mouse_pos
                    &&& final(self).camera.dragging_spec() == old(self).camera.dragging_spec()
                    &&& final(self).camera.radius_spec() == old(self).camera.radius_spec()
                    &&& turns ==> {
                        &&& final(self).camera.yaw_spec() == next_yaw(
                            old(self).camera.yaw_spec(),
                            delta_x as int,
                        )
                        &&& final(self).camera.pitch_spec() == next_pitch(
                            old(self).camera.pitch_spec(),
                            -(delta_y as int),
                        )
                        &&& final(self).camera.orbiting_spec()
                    }
                    &&& !turns ==> {
                        &&& final(self).camera.yaw_spec() == old(self).camera.yaw_spec()
                        &&& final(self).camera.pitch_spec() == old(self).camera.pitch_spec()
                        &&& final(self).camera.orbiting_spec() == old(self).camera.orbiting_spec()
                    }
                },
                Event::DeviceEvent(DeviceEvent::MouseWheel { delta }) => {
                    &&& !r.reconfigure
                    &&& final(self).graphics == old(self).graphics
                    &&& final(self).last_mouse_pos == old(self).last_mouse_pos
                    &&& final(self).camera.dragging_spec() == old(self).camera.dragging_spec()
                    &&& final(self).camera.yaw_spec() == old(self).camera.yaw_spec()
                    &&& final(self).camera.pitch_spec() == old(self).camera.pitch_spec()
                    &&& final(self).camera.radius_spec() == next_radius(
                        old(self).camera.radius_spec(),
                        delta.vertical(),
                    )
                    &&& final(self).camera.orbiting_spec()
                },
                _ => !r.reconfigure && *final(self) == *old(self),
            },
    {
        match event {
            Event::WindowEvent(window_event) => match window_event {
                WindowEvent::CloseRequested => Response { exit: true, reconfigure: false },
                WindowEvent::KeyboardInput { state, key } => match (state, key) {
                    (ElementState::Pressed, KeyCode::Escape) => Response {
                        exit: true,
                        reconfigure: false,
                    },
                    _ => Response { exit: false, reconfigure: false },
                },
                WindowEvent::Resized(physical_size) => {
                    let reconfigure = self.graphics.resize(physical_size);
                    Response { exit: false, reconfigure }
                },
                WindowEvent::MouseInput { button, state } => {
                    match button {
                        MouseButton::Left => match state {
                            ElementState::Pressed => {
                                self.last_mouse_pos = Some((0, 0));
                                self.camera.start_drag();
                            },
                            ElementState::Released => {
                                self.last_mouse_pos = None;
                                self.camera.end_drag();
                            },
                        },
                        _ => {},
                    }
                    Response { exit: false, reconfigure: false }
                },
                WindowEvent::Other => Response { exit: false, reconfigure: false },
            },
            Event::DeviceEvent(device_event) => {
                match device_event {
                    DeviceEvent::MouseMotion { delta_x, delta_y } => {
                        if self.last_mouse_pos.is_some() {
                            let rightward: i64 = *delta_x as i64;
                            let upward: i64 = -(*delta_y as i64);
                            self.camera.process_mouse_movement(rightward, upward);
                        }
                    },
                    DeviceEvent::MouseWheel { delta } => {
                        self.camera.process_mouse_scroll(delta);
                    },
                    DeviceEvent::Other => {},
                }
                Response { exit: false, reconfigure: false }
            },
            Event::Other => Response { exit: false, reconfigure: false },
        }
    }

    /// Whether the orchestrator `after` is `before` with nothing done to it.
    pub open spec fn untouched(before: &Graphics, after: &Graphics) -> bool {
        &&& after.ctx.same_registry(&before.ctx)
        &&& after.ctx.surface_config == before.ctx.surface_config
        &&& after.renderer == before.renderer
        &&& after.gui == before.gui
        &&& after.state == before.state
        &&& after.encoder == before.encoder
        &&& after.pending_resize == before.pending_resize
        &&& after.surface_stale == before.surface_stale
    }

    /// One turn of the event loop after the events: the camera's matrix
    /// `uniform` is written into its buffer, and then the frame is run, so
    /// that the scene pass reads this frame's matrix.
    ///
    /// Where the camera's buffer is missing, or does not take the write,
    /// the error says so, nothing is written and no frame is run. Else the
    /// matrix is in the buffer whatever becomes of the frame, and the frame
    /// is owed: the answer and what is left of the orchestrator are what
    /// `Graphics::render` makes of the context with the matrix written.
    pub fn run_frame(
        &mut self,
        uniform: &TransformUniform,
        surface: SurfaceStatus,
        textures: &TexturesDelta,
    ) -> (r: Result<FrameOutcome, RunError>)
        ensures
            final(self).world == old(self).world,
            final(self).camera == old(self).camera,
            final(self).last_mouse_pos == old(self).last_mouse_pos,
            final(self).graphics.ctx.same_stores_but(&old(self).graphics.ctx, Category::Buffer),
            !has_label(old(self).graphics.ctx.buffers@, CAMERA_BUFFER@) ==> {
                &&& r matches Err(RunError::Uniform(RenderError::Missing(e))) && e.label@
                    == CAMERA_BUFFER@ && e.category == Category::Buffer
                &&& Self::untouched(&old(self).graphics, &final(self).graphics)
            },
            has_label(old(self).graphics.ctx.buffers@, CAMERA_BUFFER@) ==> {
                let id = index_of(old(self).graphics.ctx.buffers@, CAMERA_BUFFER@);
                match old(self).graphics.ctx.write_result(id as usize, 0, 64) {
                    Err(fault) => {
                        &&& r matches Err(RunError::Uniform(RenderError::Registry(e))) && e == fault
                        &&& Self::untouched(&old(self).graphics, &final(self).graphics)
                    },
                    Ok(_) => {
                        &&& uniform_written(
                            &old(self).graphics.ctx,
                            &final(self).graphics.ctx,
                            id,
                            *uniform,
                        )
                        &&& index_of(final(self).graphics.ctx.buffers@, CAMERA_BUFFER@) == id
                        &&& match r {
                            Ok(outcome) => final(self).graphics.rendered(
                                &old(self).graphics,
                                &final(self).world,
                                &final(self).camera,
                                surface,
                                textures,
                                Ok(outcome),
                            ),
                            Err(RunError::Frame(e)) => final(self).graphics.rendered(
                                &old(self).graphics,
                                &final(self).world,
                                &final(self).camera,
                                surface,
                                textures,
                                Err(e),
                            ),
                            Err(RunError::Uniform(_)) => false,
                        }
                    },
                }
            },
    {
        match self.graphics.ctx.find_buffer(CAMERA_BUFFER) {
            Ok(_) => {},
            Err(e) => { return Err(RunError::Uniform(RenderError::Missing(e))); },
        }
        match self.camera.update_uniforms(&mut self.graphics.ctx, uniform) {
            Ok(()) => {},
            Err(e) => { return Err(RunError::Uniform(RenderError::Registry(e))); },
        }
        let ghost written = self.graphics;
        match self.graphics.render(&self.world, &self.camera, surface, textures) {
            Ok(outcome) => {
                proof {
                    assert(self.graphics.ctx.buffers@ == written.ctx.buffers@);
                    assert(self.graphics.rendered(
                        &written,
                        &self.world,
                        &self.camera,
                        surface,
                        textures,
                        Ok(outcome),
                    ));
                }
                Ok(outcome)
            },
            Err(e) => {
                proof {
                    assert(self.graphics.ctx.buffers@ == written.ctx.buffers@);
                    assert(self.graphics.rendered(
                        &written,
                        &self.world,
                        &self.camera,
                        surface,
                        textures,
                        Err(e),
                    ));
                }
                Err(RunError::Frame(e))
            },
        }
    }
}

/// The labels that the orchestrator, the camera and the model take are all
/// different where they go into one store.
pub proof fn lemma_labels_distinct()
    ensures
        CAMERA_BUFFER@ != QUAD_VERTEX_BUFFER@,
        CAMERA_BUFFER@ != QUAD_INDEX_BUFFER@,
        CAMERA_LAYOUT@ != WORLD_TEXTURE_LAYOUT@,
        CAMERA_BIND_GROUP@ != WORLD_TEXTURE_BIND_GROUP@,
        MESH_VERTEX_BUFFER@ != QUAD_VERTEX_BUFFER@,
        MESH_VERTEX_BUFFER@ != QUAD_INDEX_BUFFER@,
        MESH_VERTEX_BUFFER@ != CAMERA_BUFFER@,
        MESH_INDEX_BUFFER@ != QUAD_VERTEX_BUFFER@,
        MESH_INDEX_BUFFER@ != QUAD_INDEX_BUFFER@,
        MESH_INDEX_BUFFER@ != CAMERA_BUFFER@,
        MODEL_TRANSFORM_BUFFER@ != QUAD_VERTEX_BUFFER@,
        MODEL_TRANSFORM_BUFFER@ != QUAD_INDEX_BUFFER@,
        MODEL_TRANSFORM_BUFFER@ != CAMERA_BUFFER@,
        MODEL_LAYOUT@ != WORLD_TEXTURE_LAYOUT@,
        MODEL_LAYOUT@ != CAMERA_LAYOUT@,
        MODEL_BIND_GROUP@ != WORLD_TEXTURE_BIND_GROUP@,
        MODEL_BIND_GROUP@ != CAMERA_BIND_GROUP@,
        MODEL_SHADER@ != QUAD_SHADER@,
        MODEL_PIPELINE@ != QUAD_PIPELINE@,
{
    reveal_strlit("camera_transform_bind_group");
    reveal_strlit("camera_transform_uniform_buffer");
    reveal_strlit("camera_bind_group_layout");
    reveal_strlit("mesh_index_buffer");
    reveal_strlit("mesh_vertex_buffer");
    reveal_strlit("cube_transform_bind_group");
    reveal_strlit("cube_transform_bind_group_layout");
    reveal_strlit("cube_pipeline");
    reveal_strlit("cube_shader");
    reveal_strlit("model_transform_buffer");
    reveal_strlit("screen_quad_index_buffer");
    reveal_strlit("screen_quad_pipeline");
    reveal_strlit("screen_quad_shader");
    reveal_strlit("screen_quad_vertex_buffer");
    reveal_strlit("world_texture_bind_group");
    reveal_strlit("world_texture_bind_group_layout");
    assert(CAMERA_BUFFER@ != QUAD_VERTEX_BUFFER@) by {
        assert(CAMERA_BUFFER@.len() != QUAD_VERTEX_BUFFER@.len());
    }
    assert(CAMERA_BUFFER@ != QUAD_INDEX_BUFFER@) by {
        assert(CAMERA_BUFFER@.len() != QUAD_INDEX_BUFFER@.len());
    }
    assert(CAMERA_LAYOUT@ != WORLD_TEXTURE_LAYOUT@) by {
        assert(CAMERA_LAYOUT@.len() != WORLD_TEXTURE_LAYOUT@.len());
    }
    assert(CAMERA_BIND_GROUP@ != WORLD_TEXTURE_BIND_GROUP@) by {
        assert(CAMERA_BIND_GROUP@.len() != WORLD_TEXTURE_BIND_GROUP@.len());
    }
    assert(MESH_VERTEX_BUFFER@ != QUAD_VERTEX_BUFFER@) by {
        assert(MESH_VERTEX_BUFFER@.len() != QUAD_VERTEX_BUFFER@.len());
    }
    assert(MESH_VERTEX_BUFFER@ != QUAD_INDEX_BUFFER@) by {
        assert(MESH_VERTEX_BUFFER@.len() != QUAD_INDEX_BUFFER@.len());
    }
    assert(MESH_VERTEX_BUFFER@ != CAMERA_BUFFER@) by {
        assert(MESH_VERTEX_BUFFER@.len() != CAMERA_BUFFER@.len());
    }
    assert(MESH_INDEX_BUFFER@ != QUAD_VERTEX_BUFFER@) by {
        assert(MESH_INDEX_BUFFER@.len() != QUAD_VERTEX_BUFFER@.len());
    }
    assert(MESH_INDEX_BUFFER@ != QUAD_INDEX_BUFFER@) by {
        assert(MESH_INDEX_BUFFER@.len() != QUAD_INDEX_BUFFER@.len());
    }
    assert(MESH_INDEX_BUFFER@ != CAMERA_BUFFER@) by {
        assert(MESH_INDEX_BUFFER@.len() != CAMERA_BUFFER@.len());
    }
    assert(MODEL_TRANSFORM_BUFFER@ != QUAD_VERTEX_BUFFER@) by {
        assert(MODEL_TRANSFORM_BUFFER@.len() != QUAD_VERTEX_BUFFER@.len());
    }
    assert(MODEL_TRANSFORM_BUFFER@ != QUAD_INDEX_BUFFER@) by {
        assert(MODEL_TRANSFORM_BUFFER@.len() != QUAD_INDEX_BUFFER@.len());
    }
    assert(MODEL_TRANSFORM_BUFFER@ != CAMERA_BUFFER@) by {
        assert(MODEL_TRANSFORM_BUFFER@.len() != CAMERA_BUFFER@.len());
    }
    assert(MODEL_LAYOUT@ != WORLD_TEXTURE_LAYOUT@) by {
        assert(MODEL_LAYOUT@.len() != WORLD_TEXTURE_LAYOUT@.len());
    }
    assert(MODEL_LAYOUT@ != CAMERA_LAYOUT@) by {
        assert(MODEL_LAYOUT@.len() != CAMERA_LAYOUT@.len());
    }
    assert(MODEL_BIND_GROUP@ != WORLD_TEXTURE_BIND_GROUP@) by {
        assert(MODEL_BIND_GROUP@.len() != WORLD_TEXTURE_BIND_GROUP@.len());
    }
    assert(MODEL_BIND_GROUP@ != CAMERA_BIND_GROUP@) by {
        assert(MODEL_BIND_GROUP@.len() != CAMERA_BIND_GROUP@.len());
    }
    assert(MODEL_SHADER@ != QUAD_SHADER@) by {
        assert(MODEL_SHADER@.len() != QUAD_SHADER@.len());
    }
    assert(MODEL_PIPELINE@ != QUAD_PIPELINE@) by {
        assert(MODEL_PIPELINE@.len() != QUAD_PIPELINE@.len());
    }
}

} // verus!
