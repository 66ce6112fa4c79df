use render_core::camera::{MouseScrollDelta, CAMERA_BUFFER, MAX_PITCH};
use render_core::context::SurfaceCapabilities;
use render_core::encoder::{Command, PassKind};
use render_core::graphics::{
    FrameError, FrameOutcome, FrameState, SurfaceStatus,
};
use render_core::gui::TexturesDelta;
use render_core::math::TransformUniform;
use render_core::program::{
    DeviceEvent, ElementState, Event, KeyCode, MouseButton, Program, Response,
    RunError, WindowEvent,
};
use render_core::resource::{CompositeAlphaMode, PhysicalSize, PresentMode, TextureFormat};
use render_core::vertex_input::{ONE, ZERO};

fn caps() -> SurfaceCapabilities {
    SurfaceCapabilities {
        formats: vec![TextureFormat::Bgra8UnormSrgb],
        present_modes: vec![PresentMode::Fifo],
        alpha_modes: vec![CompositeAlphaMode::Auto],
    }
}

fn identity() -> TransformUniform {
    TransformUniform {
        transform: [
            [ONE, ZERO, ZERO, ZERO],
            [ZERO, ONE, ZERO, ZERO],
            [ZERO, ZERO, ONE, ZERO],
            [ZERO, ZERO, ZERO, ONE],
        ],
    }
}

fn program() -> Program {
    let mut p =
        Program::new(PhysicalSize { width: 800, height: 600 }, &caps(), &identity(), &identity())
            .unwrap();
    assert!(p.graphics.surface_stale);
    p.graphics.surface_configured();
    p
}

fn motion(delta_x: i32, delta_y: i32) -> Event {
    Event::DeviceEvent(DeviceEvent::MouseMotion { delta_x, delta_y })
}

fn left(state: ElementState) -> Event {
    Event::WindowEvent(WindowEvent::MouseInput { button: MouseButton::Left, state })
}

const QUIET: Response = Response { exit: false, reconfigure: false };

#[test]
fn new_program_is_ready_for_its_first_frame() {
    let mut p = program();
    assert_eq!(p.graphics.state(), FrameState::Idle);
    assert_eq!(p.world.models.len(), 1);
    assert_eq!(p.camera.radius(), 10_000_000);
    assert_eq!(p.camera.yaw(), 0);
    assert_eq!(p.camera.pitch(), MAX_PITCH);
    assert_eq!(p.last_mouse_pos, None);
    let ctx = &p.graphics.ctx;
    assert_eq!(
        (ctx.buffers.len(), ctx.textures.len(), ctx.texture_views.len(), ctx.samplers.len()),
        (6, 2, 2, 1)
    );
    assert_eq!(
        (
            ctx.bind_group_layouts.len(),
            ctx.bind_groups.len(),
            ctx.shaders.len(),
            ctx.render_pipelines.len()
        ),
        (3, 3, 2, 2)
    );
    assert_eq!(ctx.find_buffer(CAMERA_BUFFER).unwrap(), 2);
    assert_eq!(p.camera.bind_group(), 1);
    assert_eq!(p.world.models[0].pipeline, 1);
    assert_eq!(p.world.models[0].transform_buffer, 5);
    assert_eq!(ctx.get_render_pipeline("cube_pipeline").layout, vec![1, 2]);
    let textures = TexturesDelta { set: vec![], free: vec![] };
    let commands = match p.run_frame(&identity(), SurfaceStatus::Acquired, &textures).unwrap() {
        FrameOutcome::Presented { commands } => commands,
        other => panic!("{:?}", other),
    };
    let passes: Vec<PassKind> = commands
        .iter()
        .filter_map(|c| match c {
            Command::BeginRenderPass { pass, .. } => Some(*pass),
            _ => None,
        })
        .collect();
    assert_eq!(passes, vec![PassKind::Scene, PassKind::Composite, PassKind::Ui]);
    // The cube is drawn with all its thirty-six indices.
    assert!(commands.contains(&Command::DrawIndexed { index_count: 36 }));
    assert_eq!(p.graphics.state(), FrameState::Idle);
}

#[test]
fn new_program_fails_where_no_context_can_be_made() {
    let mut c = caps();
    c.alpha_modes.clear();
    let r = Program::new(PhysicalSize { width: 800, height: 600 }, &c, &identity(), &identity());
    assert_eq!(r.err(), Some(render_core::context::StartupError::NoAlphaMode));
}

#[test]
fn yaw_changes_during_the_drag_and_not_after_it() {
    let mut p = program();
    assert_eq!(p.handle_window_input(&left(ElementState::Pressed)), QUIET);
    assert_eq!(p.last_mouse_pos, Some((0, 0)));
    assert!(p.camera.is_dragging());
    // 100 pixels to the right.
    assert_eq!(p.handle_window_input(&motion(100_000, 0)), QUIET);
    assert_eq!(p.camera.yaw(), 500_000);
    assert_eq!(p.handle_window_input(&left(ElementState::Released)), QUIET);
    assert_eq!(p.last_mouse_pos, None);
    assert!(!p.camera.is_dragging());
    assert_eq!(p.handle_window_input(&motion(100_000, 0)), QUIET);
    assert_eq!(p.camera.yaw(), 500_000);
}

#[test]
fn motion_before_any_drag_changes_nothing() {
    let mut p = program();
    p.handle_window_input(&motion(100_000, 100_000));
    assert_eq!(p.camera.yaw(), 0);
    assert_eq!(p.camera.pitch(), MAX_PITCH);
    assert!(!p.camera.is_orbiting());
}

#[test]
fn moving_the_pointer_down_raises_the_camera() {
    let mut p = program();
    p.handle_window_input(&left(ElementState::Pressed));
    // From the upper limit, 10 pixels up: the pitch falls by 0.05 radians.
    p.handle_window_input(&motion(0, -10_000));
    assert_eq!(p.camera.pitch(), MAX_PITCH - 50_000);
    p.handle_window_input(&motion(0, 4_000));
    assert_eq!(p.camera.pitch(), MAX_PITCH - 30_000);
    p.handle_window_input(&motion(0, i32::MAX));
    assert_eq!(p.camera.pitch(), MAX_PITCH);
    p.handle_window_input(&motion(0, i32::MIN));
    assert_eq!(p.camera.pitch(), -MAX_PITCH);
}

#[test]
fn other_buttons_begin_no_drag() {
    let mut p = program();
    for button in [MouseButton::Right, MouseButton::Middle, MouseButton::Other] {
        let event =
            Event::WindowEvent(WindowEvent::MouseInput { button, state: ElementState::Pressed });
        assert_eq!(p.handle_window_input(&event), QUIET);
        assert_eq!(p.last_mouse_pos, None);
        p.handle_window_input(&motion(1000, 0));
        assert_eq!(p.camera.yaw(), 0);
    }
}

#[test]
fn the_wheel_moves_the_camera_nearer_and_farther() {
    let mut p = program();
    let wheel = Event::DeviceEvent(DeviceEvent::MouseWheel {
        delta: MouseScrollDelta::LineDelta(0, -3000),
    });
    assert_eq!(p.handle_window_input(&wheel), QUIET);
    assert_eq!(p.camera.radius(), 9_970_000);
    let wheel = Event::DeviceEvent(DeviceEvent::MouseWheel {
        delta: MouseScrollDelta::PixelDelta(5, 500),
    });
    p.handle_window_input(&wheel);
    assert_eq!(p.camera.radius(), 9_975_000);
}

#[test]
fn closing_and_escape_ask_to_leave() {
    let mut p = program();
    let leave = Response { exit: true, reconfigure: false };
    assert_eq!(p.handle_window_input(&Event::WindowEvent(WindowEvent::CloseRequested)), leave);
    let key = |state, key| Event::WindowEvent(WindowEvent::KeyboardInput { state, key });
    assert_eq!(p.handle_window_input(&key(ElementState::Pressed, KeyCode::Escape)), leave);
    assert_eq!(p.handle_window_input(&key(ElementState::Released, KeyCode::Escape)), QUIET);
    assert_eq!(p.handle_window_input(&key(ElementState::Pressed, KeyCode::KeyW)), QUIET);
    assert_eq!(p.handle_window_input(&key(ElementState::Pressed, KeyCode::Other)), QUIET);
    assert_eq!(p.handle_window_input(&Event::Other), QUIET);
    assert_eq!(p.handle_window_input(&Event::WindowEvent(WindowEvent::Other)), QUIET);
    assert_eq!(p.handle_window_input(&Event::DeviceEvent(DeviceEvent::Other)), QUIET);
    assert_eq!(p.camera.yaw(), 0);
    assert_eq!(p.camera.radius(), 10_000_000);
}

#[test]
fn a_new_size_goes_to_the_surface() {
    let mut p = program();
    let resized = |width, height| {
        Event::WindowEvent(WindowEvent::Resized(PhysicalSize { width, height }))
    };
    assert_eq!(
        p.handle_window_input(&resized(1024, 768)),
        Response { exit: false, reconfigure: true }
    );
    assert_eq!(p.graphics.ctx.surface_config.width, 1024);
    assert_eq!(p.graphics.ctx.surface_config.height, 768);
    assert!(p.graphics.surface_stale);
    p.graphics.surface_configured();
    assert_eq!(p.handle_window_input(&resized(0, 0)), QUIET);
    assert!(!p.graphics.surface_stale);
    assert_eq!(p.graphics.ctx.surface_config.width, 1024);
    assert_eq!(p.graphics.ctx.surface_config.height, 768);
}

#[test]
fn run_frame_writes_the_matrix_before_the_frame() {
    let mut p = program();
    let mut m = identity();
    m.transform[0][0] = 2.5f32.to_bits();
    let textures = TexturesDelta { set: vec![], free: vec![] };
    assert!(matches!(
        p.run_frame(&m, SurfaceStatus::Timeout, &textures),
        Ok(FrameOutcome::Skipped { reconfigure: false })
    ));
    let data = &p.graphics.ctx.get_buffer(CAMERA_BUFFER).data;
    assert_eq!(&data[0..4], &2.5f32.to_ne_bytes());
    assert_eq!(data.len(), 64);
}

#[test]
fn run_frame_without_the_camera_buffer_runs_no_frame() {
    let mut p = program();
    let bare = render_core::context::Context::new(PhysicalSize { width: 8, height: 8 }, &caps());
    p.graphics.ctx = bare.unwrap();
    let textures = TexturesDelta { set: vec![], free: vec![] };
    match p.run_frame(&identity(), SurfaceStatus::Acquired, &textures) {
        Err(RunError::Uniform(render_core::context::RenderError::Missing(e))) => {
            assert_eq!(e.label, CAMERA_BUFFER);
        }
        other => panic!("{:?}", other),
    }
    assert_eq!(p.graphics.state(), FrameState::Idle);
}

#[test]
fn run_frame_during_a_frame_is_out_of_order() {
    let mut p = program();
    p.graphics.begin_frame().unwrap();
    let textures = TexturesDelta { set: vec![], free: vec![] };
    assert!(matches!(
        p.run_frame(&identity(), SurfaceStatus::Acquired, &textures),
        Err(RunError::Frame(FrameError::OutOfOrder(FrameState::EncoderOpen)))
    ));
}
