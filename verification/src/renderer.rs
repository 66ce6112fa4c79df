use crate::camera::PerspectiveCamera;
use crate::context::{Context, ContextError};
use crate::encoder::{Attachment, Color, Command, CommandEncoder, LoadOp, PassKind};
use crate::model::Model;
use crate::registry::Category;
use crate::resource::IndexFormat;
use crate::world::{Mesh, World};
use vstd::prelude::*;

verus! {

/// The colour that the scene pass clears its target to: opaque black.
pub open spec fn background() -> Color {
    Color { r: 0, g: 0, b: 0, a: 1000 }
}

/// What draws one mesh: its vertex buffer at slot 0, its index buffer with
/// 16-bit indices, and one draw over all its indices.
pub open spec fn mesh_commands(mesh: Mesh) -> Seq<Command> {
    seq![
        Command::SetVertexBuffer { slot: 0, buffer: mesh.vertex_buffer },
        Command::SetIndexBuffer { buffer: mesh.index_buffer, format: IndexFormat::Uint16 },
        Command::DrawIndexed { index_count: mesh.num_elements },
    ]
}

/// What draws `meshes`, one after the other.
pub open spec fn meshes_commands(meshes: Seq<Mesh>) -> Seq<Command>
    decreases meshes.len(),
{
    if meshes.len() == 0 {
        Seq::empty()
    } else {
        meshes_commands(meshes.drop_last()) + mesh_commands(meshes.last())
    }
}

/// What draws one model: its pipeline, its binding group at index 1, then
/// its meshes.
pub open spec fn model_commands(model: Model) -> Seq<Command> {
    seq![
        Command::SetPipeline { pipeline: model.pipeline },
        Command::SetBindGroup { index: 1, bind_group: model.bind_group },
    ] + meshes_commands(model.meshes@)
}

/// What draws `models`, one after the other.
pub open spec fn models_commands(models: Seq<Model>) -> Seq<Command>
    decreases models.len(),
{
    if models.len() == 0 {
        Seq::empty()
    } else {
        models_commands(models.drop_last()) + model_commands(models.last())
    }
}

/// The scene pass: it begins on the two offscreen views, clearing colour to
/// the background and depth to 1, binds the camera's group at index 0,
/// draws the models and ends.
pub open spec fn scene_pass(models: Seq<Model>, camera_group: usize, color: usize, depth: usize) -> Seq<
    Command,
> {
    seq![
        Command::BeginRenderPass {
            pass: PassKind::Scene,
            color: Attachment::View(color),
            depth: Some(depth),
            load: LoadOp::Clear(background()),
        },
        Command::SetBindGroup { index: 0, bind_group: camera_group },
    ] + models_commands(models) + seq![Command::EndRenderPass]
}

/// The first handle of `mesh` that has no buffer behind it.
pub open spec fn mesh_fault(ctx: &Context, mesh: Mesh) -> Option<ContextError> {
    if mesh.vertex_buffer >= ctx.buffers@.len() {
        Some(ContextError::UnknownHandle(Category::Buffer, mesh.vertex_buffer))
    } else if mesh.index_buffer >= ctx.buffers@.len() {
        Some(ContextError::UnknownHandle(Category::Buffer, mesh.index_buffer))
    } else {
        None
    }
}

/// The first fault among `meshes`, in drawing order.
pub open spec fn meshes_fault(ctx: &Context, meshes: Seq<Mesh>) -> Option<ContextError>
    decreases meshes.len(),
{
    if meshes.len() == 0 {
        None
    } else {
        match meshes_fault(ctx, meshes.drop_last()) {
            Some(e) => Some(e),
            None => mesh_fault(ctx, meshes.last()),
        }
    }
}

/// The first handle of `model` that has nothing behind it: its pipeline's,
/// its binding group's, then those of its meshes.
pub open spec fn model_fault(ctx: &Context, model: Model) -> Option<ContextError> {
    if model.pipeline >= ctx.render_pipelines@.len() {
        Some(ContextError::UnknownHandle(Category::RenderPipeline, model.pipeline))
    } else if model.bind_group >= ctx.bind_groups@.len() {
        Some(ContextError::UnknownHandle(Category::BindGroup, model.bind_group))
    } else {
        meshes_fault(ctx, model.meshes@)
    }
}

/// The first fault among `models`, in drawing order.
pub open spec fn models_fault(ctx: &Context, models: Seq<Model>) -> Option<ContextError>
    decreases models.len(),
{
    if models.len() == 0 {
        None
    } else {
        match models_fault(ctx, models.drop_last()) {
            Some(e) => Some(e),
            None => model_fault(ctx, models.last()),
        }
    }
}

/// The first handle that the scene pass would name and that has nothing
/// behind it, in the order in which the pass names them.
pub open spec fn scene_fault(
    ctx: &Context,
    models: Seq<Model>,
    camera_group: usize,
    color: usize,
    depth: usize,
) -> Option<ContextError> {
    if color >= ctx.texture_views@.len() {
        Some(ContextError::UnknownHandle(Category::TextureView, color))
    } else if depth >= ctx.texture_views@.len() {
        Some(ContextError::UnknownHandle(Category::TextureView, depth))
    } else if camera_group >= ctx.bind_groups@.len() {
        Some(ContextError::UnknownHandle(Category::BindGroup, camera_group))
    } else {
        models_fault(ctx, models)
    }
}

/// Records the pass that draws the scene into the offscreen target.
#[derive(Clone, Copy, Debug, PartialEq, Eq, Structural)]
pub struct Renderer {}

impl Renderer {
    /// The renderer for the scenes of `ctx`. It holds nothing of its own.
    pub fn new(ctx: &Context) -> (r: Self)
        ensures
            r == (Renderer {  }),
    {
        Renderer {  }
    }

    /// Records the scene pass into `encoder`: see `scene_pass`. Nothing is
    /// recorded unless every handle that the pass names has a resource
    /// behind it; the first that has none is reported.
    pub fn render(
        &self,
        ctx: &Context,
        world: &World,
        camera: &PerspectiveCamera,
        encoder: &mut CommandEncoder,
        color_view: usize,
        depth_view: usize,
    ) -> (r: Result<(), ContextError>)
        ensures
            final(encoder).label == old(encoder).label,
            match scene_fault(ctx, world.models@, camera.bind_group_spec(), color_view, depth_view) {
                Some(e) => r == Err::<(), ContextError>(e) && final(encoder).commands@ == old(
                    encoder,
                ).commands@,
                None => r is Ok && final(encoder).commands@ == old(encoder).commands@ + scene_pass(
                    world.models@,
                    camera.bind_group_spec(),
                    color_view,
                    depth_view,
                ),
            },
    {
        if color_view >= ctx.texture_views.len() {
            return Err(ContextError::UnknownHandle(Category::TextureView, color_view));
        }
        if depth_view >= ctx.texture_views.len() {
            return Err(ContextError::UnknownHandle(Category::TextureView, depth_view));
        }
        let camera_group = camera.bind_group();
        if camera_group >= ctx.bind_groups.len() {
            return Err(ContextError::UnknownHandle(Category::BindGroup, camera_group));
        }
        let mut pass: Vec<Command> = Vec::new();
        pass.push(
            Command::BeginRenderPass {
                pass: PassKind::Scene,
                color: Attachment::View(color_view),
                depth: Some(depth_view),
                load: LoadOp::Clear(Color { r: 0, g: 0, b: 0, a: 1000 }),
            },
        );
        pass.push(Command::SetBindGroup { index: 0, bind_group: camera_group });
        let ghost head = pass@;
        let mut i: usize = 0;
        while i < world.models.len()
            invariant
                i <= world.models@.len(),
                color_view < ctx.texture_views@.len(),
                depth_view < ctx.texture_views@.len(),
                camera_group == camera.bind_group_spec(),
                camera_group < ctx.bind_groups@.len(),
                *encoder == *old(encoder),
                models_fault(ctx, world.models@.subrange(0, i as int)) is None,
                pass@ == head + models_commands(world.models@.subrange(0, i as int)),
            decreases world.models@.len() - i,
        {
            let model = &world.models[i];
            let ghost done = world.models@.subrange(0, i as int);
            let ghost next = world.models@.subrange(0, i + 1);
            proof {
                assert(next.drop_last() =~= done);
                assert(next.last() == *model);
            }
            if model.pipeline >= ctx.render_pipelines.len() {
                proof {
                    lemma_models_fault_stays(ctx, world.models@, i + 1);
                }
                return Err(ContextError::UnknownHandle(Category::RenderPipeline, model.pipeline));
            }
            if model.bind_group >= ctx.bind_groups.len() {
                proof {
                    lemma_models_fault_stays(ctx, world.models@, i + 1);
                }
                return Err(ContextError::UnknownHandle(Category::BindGroup, model.bind_group));
            }
            let ghost before = pass@;
            pass.push(Command::SetPipeline { pipeline: model.pipeline });
            pass.push(Command::SetBindGroup { index: 1, bind_group: model.bind_group });
            let ghost opened = pass@;
            let mut j: usize = 0;
            while j < model.meshes.len()
                invariant
                    j <= model.meshes@.len(),
                    i < world.models@.len(),
                    color_view < ctx.texture_views@.len(),
                    depth_view < ctx.texture_views@.len(),
                    camera_group == camera.bind_group_spec(),
                    camera_group < ctx.bind_groups@.len(),
                    *encoder == *old(encoder),

                    *model == world.models@[i as int],
                    next == world.models@.subrange(0, i + 1),
                    next.drop_last() == done,
                    next.last() == *model,
                    models_fault(ctx, done) is None,
                    model.pipeline < ctx.render_pipelines@.len(),
                    model.bind_group < ctx.bind_groups@.len(),
                    meshes_fault(ctx, model.meshes@.subrange(0, j as int)) is None,
                    pass@ == opened + meshes_commands(model.meshes@.subrange(0, j as int)),
                decreases model.meshes@.len() - j,
            {
                let mesh = model.meshes[j];
                proof {
                    assert(model.meshes@.subrange(0, j + 1).drop_last() =~= model.meshes@.subrange(
                        0,
                        j as int,
                    ));
                    assert(model.meshes@.subrange(0, j + 1).last() == mesh);
                }
                if mesh.vertex_buffer >= ctx.buffers.len() || mesh.index_buffer
                    >= ctx.buffers.len() {
                    proof {
                        lemma_meshes_fault_stays(ctx, model.meshes@, j + 1);
                        lemma_models_fault_stays(ctx, world.models@, i + 1);
                    }
                    if mesh.vertex_buffer >= ctx.buffers.len() {
                        return Err(
                            ContextError::UnknownHandle(Category::Buffer, mesh.vertex_buffer),
                        );
                    }
                    return Err(ContextError::UnknownHandle(Category::Buffer, mesh.index_buffer));
                }
                let ghost so_far = pass@;
                pass.push(Command::SetVertexBuffer { slot: 0, buffer: mesh.vertex_buffer });
                pass.push(
                    Command::SetIndexBuffer {
                        buffer: mesh.index_buffer,
                        format: IndexFormat::Uint16,
                    },
                );
                pass.push(Command::DrawIndexed { index_count: mesh.num_elements });
                proof {
                    assert(pass@ =~= so_far + mesh_commands(mesh));
                    assert(pass@ =~= opened + meshes_commands(model.meshes@.subrange(0, j + 1)));
                }
                j += 1;
            }
            proof {
                assert(model.meshes@.subrange(0, j as int) =~= model.meshes@);
                assert(opened =~= before + seq![
                    Command::SetPipeline { pipeline: model.pipeline },
                    Command::SetBindGroup { index: 1, bind_group: model.bind_group },
                ]);
                assert(pass@ =~= before + model_commands(*model));
                assert(pass@ =~= head + models_commands(next));
            }
            i += 1;
        }
        proof {
            assert(world.models@.subrange(0, i as int) =~= world.models@);
        }
        pass.push(Command::EndRenderPass);
        proof {
            assert(pass@ =~= scene_pass(world.models@, camera_group, color_view, depth_view));
        }
        encoder.extend(&pass);
        Ok(())
    }
}

/// A fault among the first `n` meshes is the fault among all of them.
pub proof fn lemma_meshes_fault_stays(ctx: &Context, meshes: Seq<Mesh>, n: int)
    requires
        0 <= n <= meshes.len(),
        meshes_fault(ctx, meshes.subrange(0, n)) is Some,
    ensures
        meshes_fault(ctx, meshes) == meshes_fault(ctx, meshes.subrange(0, n)),
    decreases meshes.len() - n,
{
    if n < meshes.len() {
        assert(meshes.subrange(0, n + 1).drop_last() =~= meshes.subrange(0, n));
        lemma_meshes_fault_stays(ctx, meshes, n + 1);
    } else {
        assert(meshes.subrange(0, n) =~= meshes);
    }
}

/// A fault among the first `n` models is the fault among all of them.
pub proof fn lemma_models_fault_stays(ctx: &Context, models: Seq<Model>, n: int)
    requires
        0 <= n <= models.len(),
        models_fault(ctx, models.subrange(0, n)) is Some,
    ensures
        models_fault(ctx, models) == models_fault(ctx, models.subrange(0, n)),
    decreases models.len() - n,
{
    if n < models.len() {
        assert(models.subrange(0, n + 1).drop_last() =~= models.subrange(0, n));
        lemma_models_fault_stays(ctx, models, n + 1);
    } else {
        assert(models.subrange(0, n) =~= models);
    }
}

} // verus!
