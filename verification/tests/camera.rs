use render_core::camera::{
    CameraBuilder, CameraType, MouseScrollDelta, PerspectiveCamera, CAMERA_BIND_GROUP,
    CAMERA_BUFFER, CAMERA_LAYOUT, FIVE, FORTY_FIVE, HUNDRED, MAX_PITCH, ONE_TENTH, TURN_RATE,
    ZOOM_RATE,
};
use render_core::context::{
    BindGroupEntry, BindGroupLayoutEntry, Context, ContextError, SurfaceCapabilities,
};
use render_core::math::{TransformUniform, Vec3};
use render_core::registry::Category;
use render_core::resource::{
    BindingResource, BindingType, BufferBindingType, BufferUsages, CompositeAlphaMode,
    PhysicalSize, PresentMode, ShaderStages, TextureFormat,
};
use render_core::vertex_input::{ONE, ZERO};

fn context() -> Context {
    let caps = SurfaceCapabilities {
        formats: vec![TextureFormat::Bgra8UnormSrgb],
        present_modes: vec![PresentMode::Fifo],
        alpha_modes: vec![CompositeAlphaMode::Auto],
    };
    Context::new(PhysicalSize { width: 800, height: 600 }, &caps).unwrap()
}

fn identity() -> TransformUniform {
    TransformUniform {
        transform: [
            [ONE, ZERO, ZERO, ZERO],
            [ZERO, ONE, ZERO, ZERO],
            [ZERO, ZERO, ONE, ZERO],
            [ZERO, ZERO, ZERO, ONE],
        ],
    }
}

fn native(uniform: &TransformUniform) -> Vec<u8> {
    let mut out = Vec::new();
    for column in uniform.transform.iter() {
        for word in column.iter() {
            out.extend_from_slice(&word.to_ne_bytes());
        }
    }
    out
}

fn camera(ctx: &mut Context) -> PerspectiveCamera {
    CameraBuilder::new().build(ctx, &identity()).unwrap()
}

#[test]
fn constants_are_those_of_the_numbers() {
    assert_eq!(FIVE, 5.0f32.to_bits());
    assert_eq!(FORTY_FIVE, 45.0f32.to_bits());
    assert_eq!(ONE_TENTH, 0.1f32.to_bits());
    assert_eq!(HUNDRED, 100.0f32.to_bits());
    assert_eq!(MAX_PITCH, 1_570_000);
    assert_eq!(TURN_RATE, 5);
    assert_eq!(ZOOM_RATE, 10);
}

#[test]
fn builder_defaults() {
    let b = CameraBuilder::new();
    assert_eq!(b.position, Vec3 { x: ZERO, y: ZERO, z: FIVE });
    assert_eq!(b.target, Vec3 { x: ZERO, y: ZERO, z: ZERO });
    assert_eq!(b.up, Vec3 { x: ZERO, y: ONE, z: ZERO });
    assert_eq!(b.fovy, FORTY_FIVE);
    assert_eq!(b.aspect, ONE);
    assert_eq!(b.near, ONE_TENTH);
    assert_eq!(b.far, HUNDRED);
    assert_eq!(b.radius, 5_000_000);
    assert_eq!(b.yaw, 0);
    assert_eq!(b.pitch, 45_000_000);
}

#[test]
fn builder_setters_set_what_they_name() {
    let p = Vec3::new(1, 2, 3);
    let t = Vec3::new(4, 5, 6);
    let u = Vec3::new(7, 8, 9);
    let b = CameraBuilder::new()
        .with_type(CameraType::Perspective)
        .with_position(p)
        .with_target(t)
        .with_up(u)
        .with_radius(-3)
        .with_near(11)
        .with_far(12);
    let mut ctx = context();
    let c = b.build(&mut ctx, &identity()).unwrap();
    assert_eq!(c.position(), p);
    assert_eq!(c.target(), t);
    assert_eq!(c.up(), u);
    assert_eq!(c.radius(), -3);
    assert_eq!(c.near(), 11);
    assert_eq!(c.far(), 12);
    assert_eq!(c.fovy(), FORTY_FIVE);
    assert_eq!(c.aspect(), ONE);
    assert_eq!(c.yaw(), 0);
    assert!(!c.is_dragging());
    assert!(!c.is_orbiting());
}

#[test]
fn set_position_moves_the_camera_and_nothing_else() {
    let mut ctx = context();
    let mut c = camera(&mut ctx);
    c.set_position(Vec3::new(HUNDRED, FIVE, ONE));
    assert_eq!(c.position(), Vec3::new(HUNDRED, FIVE, ONE));
    assert_eq!(c.target(), Vec3::new(ZERO, ZERO, ZERO));
    assert_eq!(c.up(), Vec3::new(ZERO, ONE, ZERO));
    assert_eq!(c.radius(), 5_000_000);
    assert_eq!(c.pitch(), MAX_PITCH);
    assert!(!c.is_orbiting());
}

#[test]
fn build_brings_the_pitch_within_limits() {
    let mut ctx = context();
    let c = camera(&mut ctx);
    assert_eq!(c.pitch(), MAX_PITCH);
    let mut ctx = context();
    let mut b = CameraBuilder::new();
    b.pitch = -2_000_000;
    assert_eq!(b.build(&mut ctx, &identity()).unwrap().pitch(), -MAX_PITCH);
    let mut ctx = context();
    let mut b = CameraBuilder::new();
    b.pitch = 123;
    assert_eq!(b.build(&mut ctx, &identity()).unwrap().pitch(), 123);
}

#[test]
fn build_creates_buffer_layout_and_group() {
    let mut ctx = context();
    let c = camera(&mut ctx);
    let buffer = ctx.get_buffer(CAMERA_BUFFER);
    assert_eq!(buffer.data, native(&identity()));
    assert_eq!(buffer.data.len(), 64);
    assert_eq!(buffer.usage, BufferUsages::uniform().union(BufferUsages::copy_dst()));
    let layout = ctx.get_bind_group_layout(CAMERA_LAYOUT);
    assert_eq!(
        layout.entries,
        vec![BindGroupLayoutEntry {
            binding: 0,
            visibility: ShaderStages::vertex(),
            ty: BindingType::Buffer {
                ty: BufferBindingType::Uniform,
                has_dynamic_offset: false,
                min_binding_size: None,
            },
        }]
    );
    let group = ctx.get_bind_group(CAMERA_BIND_GROUP);
    assert_eq!(group.layout, ctx.find_bind_group_layout(CAMERA_LAYOUT).unwrap());
    assert_eq!(
        group.entries,
        vec![BindGroupEntry {
            binding: 0,
            resource: BindingResource::Buffer(ctx.find_buffer(CAMERA_BUFFER).unwrap()),
        }]
    );
    assert_eq!(c.bind_group(), ctx.find_bind_group(CAMERA_BIND_GROUP).unwrap());
}

#[test]
fn build_creates_nothing_where_a_label_is_taken() {
    let mut ctx = context();
    ctx.create_bind_group(CAMERA_BIND_GROUP, 0, vec![]).unwrap_err();
    ctx.create_bind_group_layout("other", vec![]).unwrap();
    ctx.create_bind_group(CAMERA_BIND_GROUP, 0, vec![]).unwrap();
    assert_eq!(
        CameraBuilder::new().build(&mut ctx, &identity()).err(),
        Some(ContextError::DuplicateLabel(Category::BindGroup))
    );
    assert_eq!(ctx.buffers.len(), 0);
    assert_eq!(ctx.bind_group_layouts.len(), 1);
    ctx.create_bind_group_layout(CAMERA_LAYOUT, vec![]).unwrap();
    assert_eq!(
        CameraBuilder::new().build(&mut ctx, &identity()).err(),
        Some(ContextError::DuplicateLabel(Category::BindGroupLayout))
    );
    ctx.create_buffer(CAMERA_BUFFER, &[], BufferUsages::empty()).unwrap();
    assert_eq!(
        CameraBuilder::new().build(&mut ctx, &identity()).err(),
        Some(ContextError::DuplicateLabel(Category::Buffer))
    );
    assert_eq!(ctx.buffers.len(), 1);
    assert_eq!(ctx.bind_group_layouts.len(), 2);
    assert_eq!(ctx.bind_groups.len(), 1);
}

#[test]
fn motion_outside_a_drag_changes_nothing() {
    let mut ctx = context();
    let mut c = camera(&mut ctx);
    c.process_mouse_movement(100_000, 100_000);
    assert_eq!(c.yaw(), 0);
    assert_eq!(c.pitch(), MAX_PITCH);
    assert!(!c.is_orbiting());
}

#[test]
fn motion_during_a_drag_turns_the_camera() {
    let mut ctx = context();
    let mut b = CameraBuilder::new();
    b.pitch = 0;
    let mut c = b.build(&mut ctx, &identity()).unwrap();
    c.start_drag();
    assert!(c.is_dragging());
    // 100 pixels to the right, 20 pixels down: 0.5 radians of yaw, -0.1 of pitch.
    c.process_mouse_movement(100_000, 20_000);
    assert_eq!(c.yaw(), 500_000);
    assert_eq!(c.pitch(), -100_000);
    assert!(c.is_orbiting());
    c.process_mouse_movement(-1, -1);
    assert_eq!(c.yaw(), 499_995);
    assert_eq!(c.pitch(), -99_995);
    c.end_drag();
    assert!(!c.is_dragging());
    c.process_mouse_movement(1000, 1000);
    assert_eq!(c.yaw(), 499_995);
    assert_eq!(c.pitch(), -99_995);
}

#[test]
fn pitch_stops_at_its_limits_however_far_the_pointer_goes() {
    let mut ctx = context();
    let mut b = CameraBuilder::new();
    b.pitch = 0;
    let mut c = b.build(&mut ctx, &identity()).unwrap();
    c.start_drag();
    for _ in 0..1000 {
        c.process_mouse_movement(0, -100_000);
        assert!(c.pitch() <= MAX_PITCH && c.pitch() >= -MAX_PITCH);
    }
    assert_eq!(c.pitch(), MAX_PITCH);
    c.process_mouse_movement(0, i64::MIN);
    assert_eq!(c.pitch(), MAX_PITCH);
    c.process_mouse_movement(0, i64::MAX);
    assert_eq!(c.pitch(), -MAX_PITCH);
    c.process_mouse_movement(0, i64::MAX);
    assert_eq!(c.pitch(), -MAX_PITCH);
    // One step back from the limit: 313_999 thousandths of a pixel are 1_569_995.
    c.process_mouse_movement(0, -313_999);
    assert_eq!(c.pitch(), -MAX_PITCH + 1_569_995);
    c.process_mouse_movement(0, -314_001);
    assert_eq!(c.pitch(), MAX_PITCH);
}

#[test]
fn yaw_has_no_limits_but_those_of_its_representation() {
    let mut ctx = context();
    let mut b = CameraBuilder::new();
    b.yaw = i64::MAX - 4;
    let mut c = b.build(&mut ctx, &identity()).unwrap();
    c.start_drag();
    c.process_mouse_movement(1, 0);
    assert_eq!(c.yaw(), i64::MAX);
    c.process_mouse_movement(i64::MAX, 0);
    assert_eq!(c.yaw(), i64::MAX);
    c.process_mouse_movement(-(1i64 << 31), 0);
    assert_eq!(c.yaw(), i64::MAX - 5 * (1i64 << 31));
    c.process_mouse_movement(i64::MIN, 0);
    assert_eq!(c.yaw(), i64::MIN);
}

#[test]
fn scroll_moves_the_radius_and_needs_no_drag() {
    let mut ctx = context();
    let mut c = camera(&mut ctx);
    assert_eq!(c.radius(), 5_000_000);
    // One line up: 0.01 units.
    c.process_mouse_scroll(&MouseScrollDelta::LineDelta(7000, 1000));
    assert_eq!(c.radius(), 5_010_000);
    assert!(c.is_orbiting());
    c.process_mouse_scroll(&MouseScrollDelta::PixelDelta(0, -2500));
    assert_eq!(c.radius(), 4_985_000);
    // The radius is not held above zero.
    c.process_mouse_scroll(&MouseScrollDelta::LineDelta(0, -1_000_000_000));
    assert_eq!(c.radius(), 4_985_000 - 10_000_000_000);
    assert_eq!(c.yaw(), 0);
    assert_eq!(c.pitch(), MAX_PITCH);
}

#[test]
fn update_uniforms_writes_the_matrix_in_place() {
    let mut ctx = context();
    let c = camera(&mut ctx);
    let mut m = identity();
    m.transform[3] = [FIVE, HUNDRED, ZERO, ONE];
    assert_eq!(c.update_uniforms(&mut ctx, &m), Ok(()));
    assert_eq!(ctx.get_buffer(CAMERA_BUFFER).data, native(&m));
    assert_eq!(ctx.buffers.len(), 1);
}

#[test]
fn update_uniforms_reports_what_stands_in_its_way() {
    let mut ctx = context();
    let c = camera(&mut ctx);
    // Without the camera's buffer there is nothing to write to: that is found out first.
    let bare = context();
    let e = bare.find_buffer(CAMERA_BUFFER).unwrap_err();
    assert_eq!(e.label, CAMERA_BUFFER);
    assert_eq!(e.category, Category::Buffer);
    assert_eq!(e.message(), "Failed to get camera_transform_uniform_buffer from ctx.buffers!");
    let mut small = context();
    let usage = BufferUsages::uniform().union(BufferUsages::copy_dst());
    small.create_buffer(CAMERA_BUFFER, &[0; 63], usage).unwrap();
    assert_eq!(c.update_uniforms(&mut small, &identity()), Err(ContextError::OutOfRange));
    assert_eq!(small.get_buffer(CAMERA_BUFFER).data, vec![0; 63]);
    let mut fixed = context();
    fixed.create_buffer(CAMERA_BUFFER, &[0; 64], BufferUsages::uniform()).unwrap();
    assert_eq!(c.update_uniforms(&mut fixed, &identity()), Err(ContextError::NotCopyDst));
    assert_eq!(fixed.get_buffer(CAMERA_BUFFER).data, vec![0; 64]);
    // A larger buffer keeps what lies beyond the matrix.
    let mut large = context();
    large.create_buffer(CAMERA_BUFFER, &[7; 70], usage).unwrap();
    assert_eq!(c.update_uniforms(&mut large, &identity()), Ok(()));
    let data = &large.get_buffer(CAMERA_BUFFER).data;
    assert_eq!(&data[0..64], &native(&identity())[..]);
    assert_eq!(&data[64..], &[7; 6]);
}
