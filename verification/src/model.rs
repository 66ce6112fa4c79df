use crate::camera::{camera_slot, uniform_usages, CAMERA_LAYOUT};
use crate::context::{
    BindGroupEntry, BindGroupLayoutEntry, Context, ContextError, RenderError,
};
use crate::math::{Quaternion, TransformUniform, Vec3};
use crate::registry::{
    extends, has_label, index_of, lemma_grown_extends, lemma_round_trip, Category,
};
use crate::resource::{
    BindingResource, BindingType, BufferBindingType, BufferUsages, ColorTargetState,
    CompareFunction, DepthStencilState, PolygonMode, PrimitiveTopology, ShaderStages, TextureFormat,
};
use crate::vertex_input::{
    canonical_attributes, cube_indices, cube_indices_spec, cube_vertices, cube_vertices_spec,
    encodes16, encodes32, flat_words, index_bytes, vertex_bytes, word_bytes, Vertex,
    VertexBufferLayout, VertexStepMode,
};
use crate::world::{Mesh, Transform};
use vstd::pervasive::unreached;
use vstd::prelude::*;

verus! {

/// The label of the cube's vertex buffer.
pub const MESH_VERTEX_BUFFER: &'static str = "mesh_vertex_buffer";

/// The label of the cube's index buffer.
pub const MESH_INDEX_BUFFER: &'static str = "mesh_index_buffer";

/// The label of the buffer that holds the model's matrix.
pub const MODEL_TRANSFORM_BUFFER: &'static str = "model_transform_buffer";

/// The label of the layout of the model's binding group.
pub const MODEL_LAYOUT: &'static str = "cube_transform_bind_group_layout";

/// The label of the model's binding group.
pub const MODEL_BIND_GROUP: &'static str = "cube_transform_bind_group";

/// The label of the model's shader program.
pub const MODEL_SHADER: &'static str = "cube_shader";

/// Where the source of the model's shader program lies.
pub const MODEL_SHADER_PATH: &'static str = "./src/assets/shaders/player.wgsl";

/// The label of the model's pipeline.
pub const MODEL_PIPELINE: &'static str = "cube_pipeline";

/// The colour target of a pipeline that draws into the offscreen target.
pub open spec fn scene_color_target() -> ColorTargetState {
    ColorTargetState {
        format: TextureFormat::Rgba32Float,
        blend: None,
        write_red: true,
        write_green: true,
        write_blue: true,
        write_alpha: true,
    }
}

/// The depth target of a pipeline that draws into the offscreen target:
/// nearer fragments win, and depth is written.
pub open spec fn scene_depth_target() -> DepthStencilState {
    DepthStencilState {
        format: TextureFormat::Depth32Float,
        depth_write_enabled: true,
        depth_compare: CompareFunction::Less,
    }
}

/// Whether `layouts` is the one layout of the canonical vertex.
pub open spec fn canonical_layout(layouts: Seq<VertexBufferLayout>) -> bool {
    &&& layouts.len() == 1
    &&& layouts[0].array_stride == 32
    &&& layouts[0].step_mode == VertexStepMode::Vertex
    &&& layouts[0].attributes@ == canonical_attributes()
}

/// A drawable object: its transform, its meshes, and the handles of its
/// pipeline, of its binding group with the layout of that group, and of the
/// buffer that holds its matrix.
#[derive(Debug)]
pub struct Model {
    pub transform: Transform,
    pub meshes: Vec<Mesh>,
    pub bind_group_layout: usize,
    pub bind_group: usize,
    pub pipeline: usize,
    pub transform_buffer: usize,
}

impl Model {
    /// Whether `after` is this model with `transform` in the place of its
    /// own, and `ctx1` is `ctx0` with `uniform`, the matrix of that
    /// transform, written into the model's buffer, where `outcome` is a
    /// success; and whether neither differs from what it was, where it is a
    /// failure. Either way `outcome` is what the write comes to.
    pub open spec fn moved(
        &self,
        after: &Model,
        ctx0: &Context,
        ctx1: &Context,
        transform: Transform,
        uniform: TransformUniform,
        outcome: Result<(), ContextError>,
    ) -> bool {
        let id = self.transform_buffer as int;
        &&& outcome == ctx0.write_result(self.transform_buffer, 0, 64)
        &&& after.meshes == self.meshes
        &&& after.bind_group_layout == self.bind_group_layout
        &&& after.bind_group == self.bind_group
        &&& after.pipeline == self.pipeline
        &&& after.transform_buffer == self.transform_buffer
        &&& ctx1.same_but(ctx0, Category::Buffer)
        &&& ctx1.buffers@.len() == ctx0.buffers@.len()
        &&& outcome is Err ==> after.transform == self.transform && ctx1.buffers@ == ctx0.buffers@
        &&& outcome is Ok ==> {
            &&& after.transform == transform
            &&& forall|i: int|
                0 <= i < ctx1.buffers@.len() && i != id ==> (#[trigger] ctx1.buffers@[i])
                    == ctx0.buffers@[i]
            &&& ctx1.buffers@[id].0 == ctx0.buffers@[id].0
            &&& ctx1.buffers@[id].1.usage == ctx0.buffers@[id].1.usage
            &&& ctx1.buffers@[id].1.data@.len() == ctx0.buffers@[id].1.data@.len()
            &&& encodes32(ctx1.buffers@[id].1.data@.subrange(0, 64), uniform.words())
            &&& forall|i: int|
                64 <= i < ctx1.buffers@[id].1.data@.len() ==> (
                #[trigger] ctx1.buffers@[id].1.data@[i]) == ctx0.buffers@[id].1.data@[i]
        }
    }

    /// Gives the model a new transform and writes `uniform`, the matrix of
    /// that transform, into the model's buffer, in place. Where the buffer
    /// does not take the write, the model keeps its transform.
    pub fn set_transform(
        &mut self,
        ctx: &mut Context,
        transform: Transform,
        uniform: &TransformUniform,
    ) -> (r: Result<(), ContextError>)
        ensures
            old(self).moved(final(self), old(ctx), final(ctx), transform, *uniform, r),
    {
        let words = uniform.to_words();
        let bytes = word_bytes(words.as_slice());
        match ctx.write_buffer(self.transform_buffer, 0, bytes.as_slice()) {
            Ok(()) => {
                self.transform = transform;
                proof {
                    let id = self.transform_buffer as int;
                    assert(ctx.buffers@[id].1.data@.subrange(0, 64) =~= bytes@);
                }
                Ok(())
            },
            Err(e) => Err(e),
        }
    }
}

/// Collects what a model is made of.
pub struct ModelBuilder {
    pub file_path: String,
    pub transform: Transform,
}

impl ModelBuilder {
    pub fn new(file_path: &str) -> (r: Self)
        ensures
            r.file_path@ == file_path@,
            r.transform == Transform::identity(),
    {
        ModelBuilder { file_path: String::from_str(file_path), transform: Transform::default() }
    }

    pub fn with_position(self, position: Vec3) -> (r: Self)
        ensures
            r.file_path == self.file_path,
            r.transform == (Transform { position, ..self.transform }),
    {
        let mut r = self;
        r.transform.position = position;
        r
    }

    pub fn with_scale(self, scale: Vec3) -> (r: Self)
        ensures
            r.file_path == self.file_path,
            r.transform == (Transform { scale, ..self.transform }),
    {
        let mut r = self;
        r.transform.scale = scale;
        r
    }

    pub fn with_rotation(self, rotation: Quaternion) -> (r: Self)
        ensures
            r.file_path == self.file_path,
            r.transform == (Transform { rotation, ..self.transform }),
    {
        let mut r = self;
        r.transform.rotation = rotation;
        r
    }

    pub fn with_transform(self, transform: Transform) -> (r: Self)
        ensures
            r.file_path == self.file_path,
            r.transform == transform,
    {
        let mut r = self;
        r.transform = transform;
        r
    }

    /// Whether the labels that a model takes are all free in `ctx`.
    pub open spec fn labels_free(ctx: &Context) -> bool {
        &&& !has_label(ctx.buffers@, MESH_VERTEX_BUFFER@)
        &&& !has_label(ctx.buffers@, MESH_INDEX_BUFFER@)
        &&& !has_label(ctx.buffers@, MODEL_TRANSFORM_BUFFER@)
        &&& !has_label(ctx.bind_group_layouts@, MODEL_LAYOUT@)
        &&& !has_label(ctx.bind_groups@, MODEL_BIND_GROUP@)
        &&& !has_label(ctx.shaders@, MODEL_SHADER@)
        &&& !has_label(ctx.render_pipelines@, MODEL_PIPELINE@)
    }

    /// The store in which a label that a model takes is already held, first
    /// among buffers, then layouts, binding groups, shaders and pipelines.
    pub open spec fn taken(ctx: &Context) -> Category {
        if has_label(ctx.buffers@, MESH_VERTEX_BUFFER@) || has_label(
            ctx.buffers@,
            MESH_INDEX_BUFFER@,
        ) || has_label(ctx.buffers@, MODEL_TRANSFORM_BUFFER@) {
            Category::Buffer
        } else if has_label(ctx.bind_group_layouts@, MODEL_LAYOUT@) {
            Category::BindGroupLayout
        } else if has_label(ctx.bind_groups@, MODEL_BIND_GROUP@) {
            Category::BindGroup
        } else if has_label(ctx.shaders@, MODEL_SHADER@) {
            Category::Shader
        } else {
            Category::RenderPipeline
        }
    }

    /// Whether a model can be built in `ctx`: its labels are free, and the
    /// camera's layout, which its pipeline refers to, is there.
    pub open spec fn can_build(ctx: &Context) -> bool {
        Self::labels_free(ctx) && has_label(ctx.bind_group_layouts@, CAMERA_LAYOUT@)
    }

    /// Whether `ctx1` is `ctx0` with the resources of one model added, and
    /// `model` is the model that refers to them: the cube's vertex and
    /// index buffers, the buffer with `uniform`, the matrix of `transform`,
    /// the layout
    /// and the binding group that bind that buffer to slot 0, the shader
    /// program, and the pipeline that takes the camera's layout first and
    /// the model's second.
    pub open spec fn built(
        ctx0: &Context,
        ctx1: &Context,
        transform: Transform,
        uniform: TransformUniform,
        model: Model,
    ) -> bool {
        let b = ctx0.buffers@.len() as int;
        let l = ctx0.bind_group_layouts@.len() as int;
        let g = ctx0.bind_groups@.len() as int;
        let s = ctx0.shaders@.len() as int;
        let p = ctx0.render_pipelines@.len() as int;
        let camera = index_of(ctx0.bind_group_layouts@, CAMERA_LAYOUT@);
        &&& ctx1.surface_config == ctx0.surface_config
        &&& ctx1.textures@ == ctx0.textures@
        &&& ctx1.texture_views@ == ctx0.texture_views@
        &&& ctx1.samplers@ == ctx0.samplers@
        &&& extends(ctx1.buffers@, ctx0.buffers@)
        &&& ctx1.buffers@.len() == b + 3
        &&& ctx1.buffers@[b].0 == MESH_VERTEX_BUFFER@
        &&& encodes32(ctx1.buffers@[b].1.data@, flat_words(cube_vertices_spec()))
        &&& ctx1.buffers@[b].1.usage == (BufferUsages { vertex: true, ..BufferUsages::none() })
        &&& ctx1.buffers@[b + 1].0 == MESH_INDEX_BUFFER@
        &&& encodes16(ctx1.buffers@[b + 1].1.data@, cube_indices_spec())
        &&& ctx1.buffers@[b + 1].1.usage == (BufferUsages { index: true, ..BufferUsages::none() })
        &&& ctx1.buffers@[b + 2].0 == MODEL_TRANSFORM_BUFFER@
        &&& encodes32(ctx1.buffers@[b + 2].1.data@, uniform.words())
        &&& ctx1.buffers@[b + 2].1.usage == uniform_usages()
        &&& extends(ctx1.bind_group_layouts@, ctx0.bind_group_layouts@)
        &&& ctx1.bind_group_layouts@.len() == l + 1
        &&& ctx1.bind_group_layouts@[l].0 == MODEL_LAYOUT@
        &&& ctx1.bind_group_layouts@[l].1.entries@ == seq![camera_slot()]
        &&& extends(ctx1.bind_groups@, ctx0.bind_groups@)
        &&& ctx1.bind_groups@.len() == g + 1
        &&& ctx1.bind_groups@[g].0 == MODEL_BIND_GROUP@
        &&& ctx1.bind_groups@[g].1.layout == l
        &&& ctx1.bind_groups@[g].1.entries@ == seq![
            BindGroupEntry { binding: 0, resource: BindingResource::Buffer((b + 2) as usize) },
        ]
        &&& extends(ctx1.shaders@, ctx0.shaders@)
        &&& ctx1.shaders@.len() == s + 1
        &&& ctx1.shaders@[s].0 == MODEL_SHADER@
        &&& ctx1.shaders@[s].1.code_path@ == MODEL_SHADER_PATH@
        &&& extends(ctx1.render_pipelines@, ctx0.render_pipelines@)
        &&& ctx1.render_pipelines@.len() == p + 1
        &&& ctx1.render_pipelines@[p].0 == MODEL_PIPELINE@
        &&& ctx1.render_pipelines@[p].1.layout@ == seq![camera as usize, l as usize]
        &&& ctx1.render_pipelines@[p].1.shader == s
        &&& canonical_layout(ctx1.render_pipelines@[p].1.buffers@)
        &&& ctx1.render_pipelines@[p].1.color_target == Some(scene_color_target())
        &&& ctx1.render_pipelines@[p].1.depth_stencil == Some(scene_depth_target())
        &&& ctx1.render_pipelines@[p].1.topology == PrimitiveTopology::TriangleList
        &&& ctx1.render_pipelines@[p].1.polygon_mode == PolygonMode::Fill
        &&& model.transform == transform
        &&& model.meshes@ == seq![
            Mesh {
                vertex_buffer: b as usize,
                index_buffer: (b + 1) as usize,
                num_elements: 36,
            },
        ]
        &&& model.bind_group_layout == l
        &&& model.bind_group == g
        &&& model.pipeline == p
        &&& model.transform_buffer == b + 2
    }

    /// Builds the model and, in `ctx`, all that it draws with; `uniform` is
    /// the matrix of the model's transform. Nothing is created unless all
    /// of it can be: where a label is taken, the error
    /// names the store that holds it; where the labels are free and the
    /// camera's layout is missing, the error names that layout.
    pub fn build(&self, ctx: &mut Context, uniform: &TransformUniform) -> (r: Result<
        Model,
        RenderError,
    >)
        ensures
            r is Ok <==> Self::can_build(old(ctx)),
            r matches Ok(model) ==> Self::built(old(ctx), final(ctx), self.transform, *uniform, model),
            r is Err ==> final(ctx).same_registry(old(ctx)),
            final(ctx).surface_config == old(ctx).surface_config,
            !Self::labels_free(old(ctx)) ==> (r matches Err(RenderError::Registry(e)) && e
                == ContextError::DuplicateLabel(Self::taken(old(ctx)))),
            Self::labels_free(old(ctx)) && !Self::can_build(old(ctx)) ==> (r matches Err(
                RenderError::Missing(e),
            ) && e.label@ == CAMERA_LAYOUT@ && e.category == Category::BindGroupLayout),
    {
        if ctx.buffers.contains(MESH_VERTEX_BUFFER) || ctx.buffers.contains(MESH_INDEX_BUFFER)
            || ctx.buffers.contains(MODEL_TRANSFORM_BUFFER) {
            return Err(RenderError::Registry(ContextError::DuplicateLabel(Category::Buffer)));
        }
        if ctx.bind_group_layouts.contains(MODEL_LAYOUT) {
            return Err(
                RenderError::Registry(ContextError::DuplicateLabel(Category::BindGroupLayout)),
            );
        }
        if ctx.bind_groups.contains(MODEL_BIND_GROUP) {
            return Err(RenderError::Registry(ContextError::DuplicateLabel(Category::BindGroup)));
        }
        if ctx.shaders.contains(MODEL_SHADER) {
            return Err(RenderError::Registry(ContextError::DuplicateLabel(Category::Shader)));
        }
        if ctx.render_pipelines.contains(MODEL_PIPELINE) {
            return Err(
                RenderError::Registry(ContextError::DuplicateLabel(Category::RenderPipeline)),
            );
        }
        let camera_layout = match ctx.find_bind_group_layout(CAMERA_LAYOUT) {
            Ok(id) => id,
            Err(e) => { return Err(RenderError::Missing(e)); },
        };
        proof {
            reveal_strlit("mesh_vertex_buffer");
            reveal_strlit("mesh_index_buffer");
            reveal_strlit("model_transform_buffer");
            reveal_strlit("camera_bind_group_layout");
            reveal_strlit("cube_transform_bind_group_layout");
            assert(MESH_VERTEX_BUFFER@ != MESH_INDEX_BUFFER@) by {
                assert(MESH_VERTEX_BUFFER@[5] != MESH_INDEX_BUFFER@[5]);
            }
            assert(MESH_VERTEX_BUFFER@ != MODEL_TRANSFORM_BUFFER@) by {
                assert(MESH_VERTEX_BUFFER@.len() != MODEL_TRANSFORM_BUFFER@.len());
            }
            assert(MESH_INDEX_BUFFER@ != MODEL_TRANSFORM_BUFFER@) by {
                assert(MESH_INDEX_BUFFER@.len() != MODEL_TRANSFORM_BUFFER@.len());
            }
            assert(CAMERA_LAYOUT@ != MODEL_LAYOUT@) by {
                assert(CAMERA_LAYOUT@.len() != MODEL_LAYOUT@.len());
            }
        }
        let ghost ctx0 = *ctx;
        let vertices = cube_vertices();
        let vertex_data = vertex_bytes(vertices.as_slice());
        let vertex_buffer = match ctx.create_buffer(
            MESH_VERTEX_BUFFER,
            vertex_data.as_slice(),
            BufferUsages::vertex(),
        ) {
            Ok(id) => id,
            Err(_) => unreached(),
        };
        let ghost ctx1 = *ctx;
        proof {
            lemma_round_trip(ctx0.buffers@, ctx1.buffers@, MESH_VERTEX_BUFFER@);
        }
        let indices = cube_indices();
        let index_data = index_bytes(indices.as_slice());
        let index_buffer = match ctx.create_buffer(
            MESH_INDEX_BUFFER,
            index_data.as_slice(),
            BufferUsages::index(),
        ) {
            Ok(id) => id,
            Err(_) => unreached(),
        };
        let ghost ctx2 = *ctx;
        proof {
            lemma_round_trip(ctx1.buffers@, ctx2.buffers@, MESH_INDEX_BUFFER@);
        }
        let words = uniform.to_words();
        let matrix_data = word_bytes(words.as_slice());
        let usage = BufferUsages::uniform().union(BufferUsages::copy_dst());
        let transform_buffer = match ctx.create_buffer(
            MODEL_TRANSFORM_BUFFER,
            matrix_data.as_slice(),
            usage,
        ) {
            Ok(id) => id,
            Err(_) => unreached(),
        };
        proof {
            lemma_grown_extends(ctx0.buffers@, ctx1.buffers@, MESH_VERTEX_BUFFER@);
            lemma_grown_extends(ctx1.buffers@, ctx2.buffers@, MESH_INDEX_BUFFER@);
            lemma_grown_extends(ctx2.buffers@, ctx.buffers@, MODEL_TRANSFORM_BUFFER@);
        }
        let mut slots: Vec<BindGroupLayoutEntry> = Vec::new();
        slots.push(
            BindGroupLayoutEntry {
                binding: 0,
                visibility: ShaderStages::vertex(),
                ty: BindingType::Buffer {
                    ty: BufferBindingType::Uniform,
                    has_dynamic_offset: false,
                    min_binding_size: None,
                },
            },
        );
        assert(slots@ =~= seq![camera_slot()]);
        let layout = match ctx.create_bind_group_layout(MODEL_LAYOUT, slots) {
            Ok(id) => id,
            Err(_) => unreached(),
        };
        proof {
            lemma_grown_extends(
                ctx0.bind_group_layouts@,
                ctx.bind_group_layouts@,
                MODEL_LAYOUT@,
            );
        }
        let mut entries: Vec<BindGroupEntry> = Vec::new();
        entries.push(
            BindGroupEntry { binding: 0, resource: BindingResource::Buffer(transform_buffer) },
        );
        assert(entries@ =~= seq![
            BindGroupEntry { binding: 0, resource: BindingResource::Buffer(transform_buffer) },
        ]);
        let bind_group = match ctx.create_bind_group(MODEL_BIND_GROUP, layout, entries) {
            Ok(id) => id,
            Err(_) => unreached(),
        };
        proof {
            lemma_grown_extends(ctx0.bind_groups@, ctx.bind_groups@, MODEL_BIND_GROUP@);
        }
        let shader = match ctx.create_shader(MODEL_SHADER, MODEL_SHADER_PATH) {
            Ok(id) => id,
            Err(_) => unreached(),
        };
        proof {
            lemma_grown_extends(ctx0.shaders@, ctx.shaders@, MODEL_SHADER@);
        }
        let mut layouts: Vec<usize> = Vec::new();
        layouts.push(camera_layout);
        layouts.push(layout);
        assert(layouts@ =~= seq![camera_layout, layout]);
        let mut buffers: Vec<VertexBufferLayout> = Vec::new();
        buffers.push(Vertex::buffer_layout());
        let pipeline = match ctx.create_render_pipeline(
            MODEL_PIPELINE,
            layouts,
            shader,
            buffers,
            Some(
                ColorTargetState {
                    format: TextureFormat::Rgba32Float,
                    blend: None,
                    write_red: true,
                    write_green: true,
                    write_blue: true,
                    write_alpha: true,
                },
            ),
            Some(
                DepthStencilState {
                    format: TextureFormat::Depth32Float,
                    depth_write_enabled: true,
                    depth_compare: CompareFunction::Less,
                },
            ),
            PrimitiveTopology::TriangleList,
            PolygonMode::Fill,
        ) {
            Ok(id) => id,
            Err(_) => unreached(),
        };
        proof {
            lemma_grown_extends(ctx0.render_pipelines@, ctx.render_pipelines@, MODEL_PIPELINE@);
        }
        let mut meshes: Vec<Mesh> = Vec::new();
        meshes.push(Mesh { vertex_buffer, index_buffer, num_elements: 36 });
        assert(meshes@ =~= seq![Mesh { vertex_buffer, index_buffer, num_elements: 36 }]);
        Ok(
            Model {
                transform: self.transform,
                meshes,
                bind_group_layout: layout,
                bind_group,
                pipeline,
                transform_buffer,
            },
        )
    }
}

} // verus!
