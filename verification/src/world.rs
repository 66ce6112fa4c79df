use crate::camera::CAMERA_LAYOUT;
use crate::context::{Context, ContextError, RenderError};
use crate::math::{Quaternion, TransformUniform, Vec3};
use crate::model::{Model, ModelBuilder};
use crate::registry::Category;
use crate::vertex_input::{ONE, ZERO};
use vstd::prelude::*;

verus! {

/// Where an object stands, how large it is along each axis and how it is
/// turned.
#[derive(Clone, Copy, Debug, PartialEq, Eq, Structural)]
pub struct Transform {
    pub position: Vec3,
    pub scale: Vec3,
    pub rotation: Quaternion,
}

impl Transform {
    /// At the origin, at its own size, not turned: the rotation is the unit
    /// quaternion that turns nothing.
    pub open spec fn identity() -> Transform {
        Transform {
            position: Vec3 { x: ZERO, y: ZERO, z: ZERO },
            scale: Vec3 { x: ONE, y: ONE, z: ONE },
            rotation: Quaternion { v: Vec3 { x: ZERO, y: ZERO, z: ZERO }, s: ONE },
        }
    }
}

impl Default for Transform {
    fn default() -> (r: Self)
        ensures
            r == Transform::identity(),
    {
        Transform {
            position: Vec3 { x: ZERO, y: ZERO, z: ZERO },
            scale: Vec3 { x: ONE, y: ONE, z: ONE },
            rotation: Quaternion { v: Vec3 { x: ZERO, y: ZERO, z: ZERO }, s: ONE },
        }
    }
}

/// A mesh: the handles of its vertex and index buffers, and how many
/// indices it draws.
#[derive(Clone, Copy, Debug, PartialEq, Eq, Structural)]
pub struct Mesh {
    pub vertex_buffer: usize,
    pub index_buffer: usize,
    pub num_elements: u32,
}

/// What the scene holds.
pub struct World {
    pub models: Vec<Model>,
}

impl World {
    /// A world of one model: the cube, where `ModelBuilder` puts it by
    /// default; `uniform` is the matrix of that transform. It succeeds and
    /// fails as the building of that model does: where a label that the
    /// model takes is held already, the error names the store that holds
    /// it; where the labels are free and the camera's layout is missing,
    /// the error names that layout.
    pub fn new(ctx: &mut Context, uniform: &TransformUniform) -> (r: Result<Self, RenderError>)
        ensures
            r is Ok <==> ModelBuilder::can_build(old(ctx)),
            r matches Ok(world) ==> world.models@.len() == 1 && ModelBuilder::built(
                old(ctx),
                final(ctx),
                Transform::identity(),
                *uniform,
                world.models@[0],
            ),
            r is Err ==> final(ctx).same_registry(old(ctx)),
            final(ctx).surface_config == old(ctx).surface_config,
            !ModelBuilder::labels_free(old(ctx)) ==> (r matches Err(RenderError::Registry(e)) && e
                == ContextError::DuplicateLabel(ModelBuilder::taken(old(ctx)))),
            ModelBuilder::labels_free(old(ctx)) && !ModelBuilder::can_build(old(ctx)) ==> (
            r matches Err(RenderError::Missing(e)) && e.label@ == CAMERA_LAYOUT@ && e.category
                == Category::BindGroupLayout),
    {
        let builder = ModelBuilder::new("");
        let model = match builder.build(ctx, uniform) {
            Ok(model) => model,
            Err(e) => { return Err(e); },
        };
        let mut models: Vec<Model> = Vec::new();
        models.push(model);
        Ok(World { models })
    }

    /// Gives the model at `index` a new transform, and rewrites its uniform
    /// buffer in place with `uniform`, the matrix of that transform. Nothing
    /// is created. An index beyond the models is answered with `None`, and
    /// nothing changes.
    pub fn update(
        &mut self,
        ctx: &mut Context,
        index: usize,
        transform: Transform,
        uniform: &TransformUniform,
    ) -> (r: Option<Result<(), ContextError>>)
        ensures
            r is Some <==> index < old(self).models@.len(),
            final(self).models@.len() == old(self).models@.len(),
            forall|i: int|
                0 <= i < old(self).models@.len() && i != index ==> final(self).models@[i] == (
                #[trigger] old(self).models@[i]),
            r is None ==> *final(ctx) == *old(ctx),
            r matches Some(outcome) ==> old(self).models@[index as int].moved(
                &final(self).models@[index as int],
                old(ctx),
                final(ctx),
                transform,
                *uniform,
                outcome,
            ),
    {
        if index >= self.models.len() {
            return None;
        }
        let ghost before = self.models@;
        let mut model = self.models.remove(index);
        let outcome = model.set_transform(ctx, transform, uniform);
        self.models.insert(index, model);
        proof {
            assert(self.models@.len() == before.len());
            assert forall|i: int| 0 <= i < self.models@.len() && i != index implies (
            #[trigger] self.models@[i]) == before[i] by {}
        }
        Some(outcome)
    }
}

} // verus!
