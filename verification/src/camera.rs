use crate::context::{BindGroupEntry, BindGroupLayoutEntry, Context, ContextError};
use crate::math::{TransformUniform, Vec3};
use crate::registry::{grown_by, has_label, index_of, Category};
use crate::resource::{
    BindingResource, BindingType, BufferBindingType, BufferUsages, ShaderStages,
};
use crate::vertex_input::{encodes32, word_bytes, ONE, ZERO};
use vstd::pervasive::unreached;
use vstd::prelude::*;

verus! {

/// The label of the buffer that holds the camera's view-projection matrix.
pub const CAMERA_BUFFER: &'static str = "camera_transform_uniform_buffer";

/// The label of the layout of the camera's binding group.
pub const CAMERA_LAYOUT: &'static str = "camera_bind_group_layout";

/// The label of the camera's binding group.
pub const CAMERA_BIND_GROUP: &'static str = "camera_transform_bind_group";

/// The largest pitch, in millionths of a radian: a little under a right angle.
pub const MAX_PITCH: i64 = 1_570_000;

/// Millionths of a radian that the camera turns for each thousandth of a
/// pixel of pointer motion: 0.005 radians for a pixel.
pub const TURN_RATE: i64 = 5;

/// Millionths of a length unit that the orbit radius grows for each
/// thousandth of a scroll step: 0.01 units for a step.
pub const ZOOM_RATE: i64 = 10;

/// Bit pattern of the single-precision value 5.
pub const FIVE: u32 = 0x40A0_0000;

/// Bit pattern of the single-precision value 45.
pub const FORTY_FIVE: u32 = 0x4234_0000;

/// Bit pattern of the single-precision value nearest to 0.1.
pub const ONE_TENTH: u32 = 0x3DCC_CCCD;

/// Bit pattern of the single-precision value 100.
pub const HUNDRED: u32 = 0x42C8_0000;

/// The kinds of camera that can be built.
pub enum CameraType {
    Perspective,
}

/// How far the scroll wheel moved: in lines or in pixels, each in
/// thousandths.
#[derive(Clone, Copy, Debug, PartialEq, Eq, Structural)]
pub enum MouseScrollDelta {
    LineDelta(i32, i32),
    PixelDelta(i32, i32),
}

impl MouseScrollDelta {
    /// The vertical part.
    pub open spec fn vertical(self) -> int {
        match self {
            MouseScrollDelta::LineDelta(_, y) => y as int,
            MouseScrollDelta::PixelDelta(_, y) => y as int,
        }
    }
}

/// `value`, or the nearest limit of a 64-bit signed number where it lies
/// beyond one.
pub open spec fn saturate(value: int) -> int {
    if value < i64::MIN {
        i64::MIN as int
    } else if value > i64::MAX {
        i64::MAX as int
    } else {
        value
    }
}

/// `value`, or the nearest limit of the pitch where it lies beyond one.
pub open spec fn clamp_pitch(value: int) -> int {
    if value > MAX_PITCH {
        MAX_PITCH as int
    } else if value < -MAX_PITCH {
        -MAX_PITCH as int
    } else {
        value
    }
}

/// The yaw after the pointer has moved by `delta_x` during a drag.
pub open spec fn next_yaw(yaw: int, delta_x: int) -> int {
    saturate(yaw + TURN_RATE * delta_x)
}

/// The pitch after the pointer has moved by `delta_y` during a drag.
pub open spec fn next_pitch(pitch: int, delta_y: int) -> int {
    clamp_pitch(pitch - TURN_RATE * delta_y)
}

/// The orbit radius after the wheel has moved by `delta`.
pub open spec fn next_radius(radius: int, delta: int) -> int {
    saturate(radius + ZOOM_RATE * delta)
}

/// Whatever the pitch and whatever the pointer does, the next pitch lies
/// within the limits.
pub proof fn lemma_pitch_stays_clamped(pitch: int, delta_y: int)
    ensures
        -MAX_PITCH <= next_pitch(pitch, delta_y) <= MAX_PITCH,
{
}

/// Clamping settles: a motion large enough to carry the pitch from one limit
/// past the other leaves it at a limit, and the same motion again leaves it
/// there.
pub proof fn lemma_extreme_motion_settles(pitch: int, delta_y: int)
    requires
        -MAX_PITCH <= pitch <= MAX_PITCH,
        TURN_RATE * delta_y >= 2 * MAX_PITCH || TURN_RATE * delta_y <= -2 * MAX_PITCH,
    ensures
        TURN_RATE * delta_y >= 2 * MAX_PITCH ==> next_pitch(pitch, delta_y) == -MAX_PITCH,
        TURN_RATE * delta_y <= -2 * MAX_PITCH ==> next_pitch(pitch, delta_y) == MAX_PITCH,
        next_pitch(next_pitch(pitch, delta_y), delta_y) == next_pitch(pitch, delta_y),
{
}

/// However many motions follow one another, the pitch lies within the
/// limits after each of them.
pub proof fn lemma_pitch_after_motions(pitch: int, deltas: Seq<int>)
    requires
        -MAX_PITCH <= pitch <= MAX_PITCH,
    ensures
        -MAX_PITCH <= pitch_after(pitch, deltas) <= MAX_PITCH,
    decreases deltas.len(),
{
    if deltas.len() > 0 {
        lemma_pitch_after_motions(pitch, deltas.drop_last());
    }
}

/// The pitch after the motions `deltas`, one after the other.
pub open spec fn pitch_after(pitch: int, deltas: Seq<int>) -> int
    decreases deltas.len(),
{
    if deltas.len() == 0 {
        pitch
    } else {
        next_pitch(pitch_after(pitch, deltas.drop_last()), deltas.last())
    }
}

fn saturating(value: i128) -> (r: i64)
    ensures
        r == saturate(value as int),
{
    if value < i64::MIN as i128 {
        i64::MIN
    } else if value > i64::MAX as i128 {
        i64::MAX
    } else {
        value as i64
    }
}

fn clamped(value: i128) -> (r: i64)
    ensures
        r == clamp_pitch(value as int),
{
    if value > MAX_PITCH as i128 {
        MAX_PITCH
    } else if value < -(MAX_PITCH as i128) {
        -MAX_PITCH
    } else {
        value as i64
    }
}

/// An orbiting perspective camera. Angles are in millionths of a radian and
/// the orbit radius in millionths of a length unit; what is only handed on
/// to the projection (target, up, field of view, aspect, near and far
/// planes, the position it was built at) is held as bit patterns of
/// single-precision numbers. Once the camera has orbited, its position is
/// what radius, yaw and pitch give about the target, and the position it was
/// built at no longer counts.
pub struct PerspectiveCamera {
    position: Vec3,
    target: Vec3,
    up: Vec3,
    fovy: u32,
    aspect: u32,
    near: u32,
    far: u32,
    radius: i64,
    yaw: i64,
    pitch: i64,
    orbiting: bool,
    dragging: bool,
    bind_group: usize,
}

impl PerspectiveCamera {
    #[verifier::type_invariant]
    closed spec fn pitch_within_limits(&self) -> bool {
        -MAX_PITCH <= self.pitch <= MAX_PITCH
    }

    /// The yaw, in millionths of a radian.
    pub closed spec fn yaw_spec(&self) -> int {
        self.yaw as int
    }

    /// The pitch, in millionths of a radian.
    pub closed spec fn pitch_spec(&self) -> int {
        self.pitch as int
    }

    /// The orbit radius, in millionths of a length unit.
    pub closed spec fn radius_spec(&self) -> int {
        self.radius as int
    }

    /// Whether a drag is under way.
    pub closed spec fn dragging_spec(&self) -> bool {
        self.dragging
    }

    /// Whether radius, yaw and pitch give the position.
    pub closed spec fn orbiting_spec(&self) -> bool {
        self.orbiting
    }

    /// The handle of the camera's binding group.
    pub closed spec fn bind_group_spec(&self) -> usize {
        self.bind_group
    }

    /// What only the projection reads: the position the camera was built
    /// at, target, up, field of view, aspect, near plane, far plane.
    pub closed spec fn lens(&self) -> (Vec3, Vec3, Vec3, u32, u32, u32, u32) {
        (self.position, self.target, self.up, self.fovy, self.aspect, self.near, self.far)
    }

    /// Whether `self` differs from `before` in yaw, pitch, radius and the
    /// two flags at most.
    pub open spec fn same_lens(&self, before: &PerspectiveCamera) -> bool {
        self.lens() == before.lens() && self.bind_group_spec() == before.bind_group_spec()
    }

    /// The yaw, in millionths of a radian.
    pub fn yaw(&self) -> (r: i64)
        ensures
            r == self.yaw_spec(),
    {
        self.yaw
    }

    /// The pitch, which never lies beyond its limits.
    pub fn pitch(&self) -> (r: i64)
        ensures
            r == self.pitch_spec(),
            -MAX_PITCH <= r <= MAX_PITCH,
    {
        proof {
            use_type_invariant(self);
        }
        self.pitch
    }

    /// The orbit radius, in millionths of a length unit.
    pub fn radius(&self) -> (r: i64)
        ensures
            r == self.radius_spec(),
    {
        self.radius
    }

    /// Whether a drag is under way.
    pub fn is_dragging(&self) -> (r: bool)
        ensures
            r == self.dragging_spec(),
    {
        self.dragging
    }

    /// Whether radius, yaw and pitch give the position.
    pub fn is_orbiting(&self) -> (r: bool)
        ensures
            r == self.orbiting_spec(),
    {
        self.orbiting
    }

    /// The handle of the camera's binding group.
    pub fn bind_group(&self) -> (r: usize)
        ensures
            r == self.bind_group_spec(),
    {
        self.bind_group
    }

    /// The position the camera was built at.
    pub fn position(&self) -> (r: Vec3)
        ensures
            r == self.lens().0,
    {
        self.position
    }

    pub fn target(&self) -> (r: Vec3)
        ensures
            r == self.lens().1,
    {
        self.target
    }

    pub fn up(&self) -> (r: Vec3)
        ensures
            r == self.lens().2,
    {
        self.up
    }

    pub fn fovy(&self) -> (r: u32)
        ensures
            r == self.lens().3,
    {
        self.fovy
    }

    pub fn aspect(&self) -> (r: u32)
        ensures
            r == self.lens().4,
    {
        self.aspect
    }

    pub fn near(&self) -> (r: u32)
        ensures
            r == self.lens().5,
    {
        self.near
    }

    pub fn far(&self) -> (r: u32)
        ensures
            r == self.lens().6,
    {
        self.far
    }

    /// Puts the camera at `position`. This is where it stands until it
    /// orbits; from then on radius, yaw and pitch say where it stands.
    pub fn set_position(&mut self, position: Vec3)
        ensures
            final(self).lens() == (
                position,
                old(self).lens().1,
                old(self).lens().2,
                old(self).lens().3,
                old(self).lens().4,
                old(self).lens().5,
                old(self).lens().6,
            ),
            final(self).bind_group_spec() == old(self).bind_group_spec(),
            final(self).yaw_spec() == old(self).yaw_spec(),
            final(self).pitch_spec() == old(self).pitch_spec(),
            final(self).radius_spec() == old(self).radius_spec(),
            final(self).orbiting_spec() == old(self).orbiting_spec(),
            final(self).dragging_spec() == old(self).dragging_spec(),
    {
        proof {
            use_type_invariant(&*self);
        }
        self.position = position;
    }

    /// The primary pointer button went down: a drag begins.
    pub fn start_drag(&mut self)
        ensures
            final(self).dragging_spec(),
            final(self).yaw_spec() == old(self).yaw_spec(),
            final(self).pitch_spec() == old(self).pitch_spec(),
            final(self).radius_spec() == old(self).radius_spec(),
            final(self).orbiting_spec() == old(self).orbiting_spec(),
            final(self).same_lens(old(self)),
    {
        proof {
            use_type_invariant(&*self);
        }
        self.dragging = true;
    }

    /// The primary pointer button went up: the drag ends.
    pub fn end_drag(&mut self)
        ensures
            !final(self).dragging_spec(),
            final(self).yaw_spec() == old(self).yaw_spec(),
            final(self).pitch_spec() == old(self).pitch_spec(),
            final(self).radius_spec() == old(self).radius_spec(),
            final(self).orbiting_spec() == old(self).orbiting_spec(),
            final(self).same_lens(old(self)),
    {
        proof {
            use_type_invariant(&*self);
        }
        self.dragging = false;
    }

    /// The pointer moved by `delta_x` and `delta_y` thousandths of a pixel.
    /// Outside a drag nothing changes. During one, the camera turns about
    /// its target: yaw grows with `delta_x`, pitch falls with `delta_y` and
    /// stops at its limits, and from then on the camera orbits.
    pub fn process_mouse_movement(&mut self, delta_x: i64, delta_y: i64)
        ensures
            final(self).dragging_spec() == old(self).dragging_spec(),
            final(self).radius_spec() == old(self).radius_spec(),
            final(self).same_lens(old(self)),
            old(self).dragging_spec() ==> {
                &&& final(self).yaw_spec() == next_yaw(old(self).yaw_spec(), delta_x as int)
                &&& final(self).pitch_spec() == next_pitch(old(self).pitch_spec(), delta_y as int)
                &&& final(self).orbiting_spec()
            },
            !old(self).dragging_spec() ==> {
                &&& final(self).yaw_spec() == old(self).yaw_spec()
                &&& final(self).pitch_spec() == old(self).pitch_spec()
                &&& final(self).orbiting_spec() == old(self).orbiting_spec()
            },
            -MAX_PITCH <= final(self).pitch_spec() <= MAX_PITCH,
    {
        proof {
            use_type_invariant(&*self);
        }
        if !self.dragging {
            return ;
        }
        let yaw: i64 = saturating(self.yaw as i128 + (TURN_RATE as i128) * (delta_x as i128));
        let pitch: i64 = clamped(self.pitch as i128 - (TURN_RATE as i128) * (delta_y as i128));
        self.pitch = pitch;
        self.yaw = yaw;
        self.orbiting = true;
    }

    /// The wheel moved: the orbit radius grows by the vertical part of
    /// `delta`, and from then on the camera orbits. The radius has no
    /// limits but those of its representation.
    pub fn process_mouse_scroll(&mut self, delta: &MouseScrollDelta)
        ensures
            final(self).radius_spec() == next_radius(old(self).radius_spec(), delta.vertical()),
            final(self).orbiting_spec(),
            final(self).yaw_spec() == old(self).yaw_spec(),
            final(self).pitch_spec() == old(self).pitch_spec(),
            final(self).dragging_spec() == old(self).dragging_spec(),
            final(self).same_lens(old(self)),
    {
        proof {
            use_type_invariant(&*self);
        }
        let y: i32 = match delta {
            MouseScrollDelta::LineDelta(_, y) => *y,
            MouseScrollDelta::PixelDelta(_, y) => *y,
        };
        let radius: i64 = saturating(self.radius as i128 + (ZOOM_RATE as i128) * (y as i128));
        self.radius = radius;
        self.orbiting = true;
    }

    /// Writes the view-projection matrix `uniform` into the camera's buffer,
    /// which is looked up by its label and has to be there: without it the
    /// camera has nothing to write to, and a caller that does not know asks
    /// `Context::find_buffer` first. The buffer is written in place: it
    /// keeps its size, and has to hold at least the sixty-four bytes of a
    /// matrix and to take copies; where it does not, the error says which,
    /// and nothing is written.
    pub fn update_uniforms(&self, ctx: &mut Context, uniform: &TransformUniform) -> (r: Result<
        (),
        ContextError,
    >)
        requires
            has_label(old(ctx).buffers@, CAMERA_BUFFER@),
        ensures
            r == old(ctx).write_result(
                index_of(old(ctx).buffers@, CAMERA_BUFFER@) as usize,
                0,
                64,
            ),
            final(ctx).same_but(old(ctx), Category::Buffer),
            r is Ok ==> uniform_written(
                old(ctx),
                final(ctx),
                index_of(old(ctx).buffers@, CAMERA_BUFFER@),
                *uniform,
            ),
            r is Ok ==> index_of(final(ctx).buffers@, CAMERA_BUFFER@) == index_of(
                old(ctx).buffers@,
                CAMERA_BUFFER@,
            ),
            r is Err ==> final(ctx).buffers@ == old(ctx).buffers@,
    {
        let id = match ctx.find_buffer(CAMERA_BUFFER) {
            Ok(id) => id,
            Err(_) => unreached(),
        };
        let words = uniform.to_words();
        let bytes = word_bytes(words.as_slice());
        match ctx.write_buffer(id, 0, bytes.as_slice()) {
            Ok(()) => {
                proof {
                    assert(ctx.buffers@[id as int].1.data@.subrange(0, 64) =~= bytes@);
                    assert(ctx.buffers@[id as int].0 == CAMERA_BUFFER@);
                }
                Ok(())
            },
            Err(e) => Err(e),
        }
    }
}

/// Whether the buffers of `ctx1` are those of `ctx0` with the sixty-four
/// bytes of `uniform` written over the beginning of the buffer behind `id`:
/// that buffer keeps its label, its usages, its size and its bytes from the
/// sixty-fifth on, and every other buffer is as it was.
pub open spec fn uniform_written(
    ctx0: &Context,
    ctx1: &Context,
    id: int,
    uniform: TransformUniform,
) -> bool {
    &&& ctx1.buffers@.len() == ctx0.buffers@.len()
    &&& 0 <= id < ctx0.buffers@.len()
    &&& ctx1.buffers@[id].0 == ctx0.buffers@[id].0
    &&& ctx1.buffers@[id].1.usage == ctx0.buffers@[id].1.usage
    &&& ctx1.buffers@[id].1.data@.len() == ctx0.buffers@[id].1.data@.len()
    &&& ctx1.buffers@[id].1.data@.len() >= 64
    &&& encodes32(ctx1.buffers@[id].1.data@.subrange(0, 64), uniform.words())
    &&& forall|i: int|
        64 <= i < ctx0.buffers@[id].1.data@.len() ==> (#[trigger] ctx1.buffers@[id].1.data@[i])
            == ctx0.buffers@[id].1.data@[i]
    &&& forall|i: int|
        0 <= i < ctx1.buffers@.len() && i != id ==> (#[trigger] ctx1.buffers@[i])
            == ctx0.buffers@[i]
}

/// The one slot of the camera's layout: a uniform buffer at slot 0, seen by
/// the vertex stage.
pub open spec fn camera_slot() -> BindGroupLayoutEntry {
    BindGroupLayoutEntry {
        binding: 0,
        visibility: ShaderStages { vertex: true, fragment: false, compute: false },
        ty: BindingType::Buffer {
            ty: BufferBindingType::Uniform,
            has_dynamic_offset: false,
            min_binding_size: None,
        },
    }
}

/// The usages of a uniform buffer that is written every frame.
pub open spec fn uniform_usages() -> BufferUsages {
    BufferUsages { uniform: true, copy_dst: true, ..BufferUsages::none() }
}

/// Collects what a camera is made of; what is not set keeps its default.
pub struct CameraBuilder {
    pub camera_type: CameraType,
    pub position: Vec3,
    pub target: Vec3,
    pub up: Vec3,
    pub fovy: u32,
    pub aspect: u32,
    pub near: u32,
    pub far: u32,
    pub radius: i64,
    pub yaw: i64,
    pub pitch: i64,
}

impl CameraBuilder {
    /// A camera at (0, 0, 5) that looks at the origin with the y axis up, a
    /// field of view of 45 degrees, aspect 1, near plane 0.1, far plane 100,
    /// orbit radius 5, yaw 0 and a pitch of 45 radians, which `build` brings
    /// within the limits.
    pub fn new() -> (r: Self)
        ensures
            r.position == (Vec3 { x: ZERO, y: ZERO, z: FIVE }),
            r.target == (Vec3 { x: ZERO, y: ZERO, z: ZERO }),
            r.up == (Vec3 { x: ZERO, y: ONE, z: ZERO }),
            r.fovy == FORTY_FIVE,
            r.aspect == ONE,
            r.near == ONE_TENTH,
            r.far == HUNDRED,
            r.radius == 5_000_000,
            r.yaw == 0,
            r.pitch == 45_000_000,
    {
        CameraBuilder {
            camera_type: CameraType::Perspective,
            position: Vec3 { x: ZERO, y: ZERO, z: FIVE },
            target: Vec3 { x: ZERO, y: ZERO, z: ZERO },
            up: Vec3 { x: ZERO, y: ONE, z: ZERO },
            fovy: FORTY_FIVE,
            aspect: ONE,
            near: ONE_TENTH,
            far: HUNDRED,
            radius: 5_000_000,
            yaw: 0,
            pitch: 45_000_000,
        }
    }

    pub fn with_type(self, camera_type: CameraType) -> (r: Self)
        ensures
            r == (CameraBuilder { camera_type, ..self }),
    {
        let mut r = self;
        r.camera_type = camera_type;
        r
    }

    pub fn with_position(self, position: Vec3) -> (r: Self)
        ensures
            r == (CameraBuilder { position, ..self }),
    {
        let mut r = self;
        r.position = position;
        r
    }

    pub fn with_up(self, up: Vec3) -> (r: Self)
        ensures
            r == (CameraBuilder { up, ..self }),
    {
        let mut r = self;
        r.up = up;
        r
    }

    pub fn with_target(self, target: Vec3) -> (r: Self)
        ensures
            r == (CameraBuilder { target, ..self }),
    {
        let mut r = self;
        r.target = target;
        r
    }

    /// Sets the orbit radius, in millionths of a length unit.
    pub fn with_radius(self, radius: i64) -> (r: Self)
        ensures
            r == (CameraBuilder { radius, ..self }),
    {
        let mut r = self;
        r.radius = radius;
        r
    }

    pub fn with_near(self, near: u32) -> (r: Self)
        ensures
            r == (CameraBuilder { near, ..self }),
    {
        let mut r = self;
        r.near = near;
        r
    }

    pub fn with_far(self, far: u32) -> (r: Self)
        ensures
            r == (CameraBuilder { far, ..self }),
    {
        let mut r = self;
        r.far = far;
        r
    }

    /// Whether the three labels that a camera takes are all free in `ctx`.
    pub open spec fn labels_free(ctx: &Context) -> bool {
        &&& !has_label(ctx.buffers@, CAMERA_BUFFER@)
        &&& !has_label(ctx.bind_group_layouts@, CAMERA_LAYOUT@)
        &&& !has_label(ctx.bind_groups@, CAMERA_BIND_GROUP@)
    }

    /// Makes the camera, and in `ctx` its uniform buffer, holding the
    /// view-projection matrix `uniform`, the layout of its binding group and
    /// the binding group itself. Where one of the three labels is taken,
    /// nothing is created, and the error names the first of them that is:
    /// the buffer's, then the layout's, then the group's.
    pub fn build(&self, ctx: &mut Context, uniform: &TransformUniform) -> (r: Result<
        PerspectiveCamera,
        ContextError,
    >)
        ensures
            r is Ok <==> Self::labels_free(old(ctx)),
            final(ctx).surface_config == old(ctx).surface_config,
            final(ctx).textures@ == old(ctx).textures@,
            final(ctx).texture_views@ == old(ctx).texture_views@,
            final(ctx).samplers@ == old(ctx).samplers@,
            final(ctx).shaders@ == old(ctx).shaders@,
            final(ctx).render_pipelines@ == old(ctx).render_pipelines@,
            r matches Err(e) ==> {
                &&& final(ctx).same_registry(old(ctx))
                &&& e == if has_label(old(ctx).buffers@, CAMERA_BUFFER@) {
                    ContextError::DuplicateLabel(Category::Buffer)
                } else if has_label(old(ctx).bind_group_layouts@, CAMERA_LAYOUT@) {
                    ContextError::DuplicateLabel(Category::BindGroupLayout)
                } else {
                    ContextError::DuplicateLabel(Category::BindGroup)
                }
            },
            r matches Ok(camera) ==> {
                let buffer = old(ctx).buffers@.len() as int;
                let layout = old(ctx).bind_group_layouts@.len() as int;
                let group = old(ctx).bind_groups@.len() as int;
                &&& camera.lens() == (
                    self.position,
                    self.target,
                    self.up,
                    self.fovy,
                    self.aspect,
                    self.near,
                    self.far,
                )
                &&& camera.radius_spec() == self.radius
                &&& camera.yaw_spec() == self.yaw
                &&& camera.pitch_spec() == clamp_pitch(self.pitch as int)
                &&& !camera.dragging_spec()
                &&& !camera.orbiting_spec()
                &&& camera.bind_group_spec() == group
                &&& grown_by(final(ctx).buffers@, old(ctx).buffers@, CAMERA_BUFFER@)
                &&& encodes32(final(ctx).buffers@[buffer].1.data@, uniform.words())
                &&& final(ctx).buffers@[buffer].1.usage == uniform_usages()
                &&& grown_by(
                    final(ctx).bind_group_layouts@,
                    old(ctx).bind_group_layouts@,
                    CAMERA_LAYOUT@,
                )
                &&& final(ctx).bind_group_layouts@[layout].1.entries@ == seq![camera_slot()]
                &&& grown_by(final(ctx).bind_groups@, old(ctx).bind_groups@, CAMERA_BIND_GROUP@)
                &&& final(ctx).bind_groups@[group].1.layout == layout
                &&& final(ctx).bind_groups@[group].1.entries@ == seq![
                    BindGroupEntry {
                        binding: 0,
                        resource: BindingResource::Buffer(buffer as usize),
                    },
                ]
            },
    {
        if ctx.buffers.contains(CAMERA_BUFFER) {
            return Err(ContextError::DuplicateLabel(Category::Buffer));
        }
        if ctx.bind_group_layouts.contains(CAMERA_LAYOUT) {
            return Err(ContextError::DuplicateLabel(Category::BindGroupLayout));
        }
        if ctx.bind_groups.contains(CAMERA_BIND_GROUP) {
            return Err(ContextError::DuplicateLabel(Category::BindGroup));
        }
        let words = uniform.to_words();
        let bytes = word_bytes(words.as_slice());
        let usage = BufferUsages::uniform().union(BufferUsages::copy_dst());
        let buffer = match ctx.create_buffer(CAMERA_BUFFER, bytes.as_slice(), usage) {
            Ok(id) => id,
            Err(_) => unreached(),
        };
        let mut slots: Vec<BindGroupLayoutEntry> = Vec::new();
        slots.push(
            BindGroupLayoutEntry {
                binding: 0,
                visibility: ShaderStages::vertex(),
                ty: BindingType::Buffer {
                    ty: BufferBindingType::Uniform,
                    has_dynamic_offset: false,
                    min_binding_size: None,
                },
            },
        );
        assert(slots@ =~= seq![camera_slot()]);
        let layout = match ctx.create_bind_group_layout(CAMERA_LAYOUT, slots) {
            Ok(id) => id,
            Err(_) => unreached(),
        };
        let mut entries: Vec<BindGroupEntry> = Vec::new();
        entries.push(BindGroupEntry { binding: 0, resource: BindingResource::Buffer(buffer) });
        assert(entries@ =~= seq![
            BindGroupEntry { binding: 0, resource: BindingResource::Buffer(buffer) },
        ]);
        let bind_group = match ctx.create_bind_group(CAMERA_BIND_GROUP, layout, entries) {
            Ok(id) => id,
            Err(_) => unreached(),
        };
        Ok(
            PerspectiveCamera {
                position: self.position,
                target: self.target,
                up: self.up,
                fovy: self.fovy,
                aspect: self.aspect,
                near: self.near,
                far: self.far,
                radius: self.radius,
                yaw: self.yaw,
                pitch: clamped(self.pitch as i128),
                orbiting: false,
                dragging: false,
                bind_group,
            },
        )
    }
}

} // verus!
