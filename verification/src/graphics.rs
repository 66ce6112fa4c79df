use crate::camera::PerspectiveCamera;
use crate::context::{
    BindGroupEntry, BindGroupLayoutEntry, Context, ContextError, Sampler, StartupError,
    SurfaceCapabilities, SurfaceConfiguration, Texture, TextureView, startup_error,
};
use crate::encoder::{Attachment, Color, Command, CommandEncoder, LoadOp, PassKind, TextureId};
use crate::gui::{overlay, releases, ui_pass, uploads, Gui, TexturesDelta};
use crate::model::{canonical_layout, Model};
use crate::registry::{has_label, index_of, lemma_round_trip, Category, LookupError};
use crate::renderer::{
    meshes_commands, model_commands, models_commands, scene_fault, scene_pass, Renderer,
};
use crate::resource::{
    AddressMode, BindingResource, BindingType, BlendState, BufferUsages, ColorTargetState,
    Extent3d, FilterMode, IndexFormat, PhysicalSize, PolygonMode, PrimitiveTopology,
    SamplerBindingType, ShaderStages, TextureDimension, TextureFormat, TextureSampleType,
    TextureUsages, TextureViewDimension,
};
use crate::vertex_input::{
    encodes16, encodes32, flat_words, index_bytes, square_indices, square_indices_spec,
    square_vertices, square_vertices_spec, vertex_bytes, Vertex, VertexBufferLayout,
};
use crate::world::{Mesh, World};
use vstd::pervasive::unreached;
use vstd::prelude::*;

verus! {

/// The label of the offscreen colour texture.
pub const WORLD_COLOR_TEXTURE: &'static str = "world_color_texture";

/// The label of the view of the offscreen colour texture.
pub const WORLD_COLOR_VIEW: &'static str = "world_color_texture_view";

/// The label of the offscreen depth texture.
pub const WORLD_DEPTH_TEXTURE: &'static str = "world_depth_texture";

/// The label of the view of the offscreen depth texture.
pub const WORLD_DEPTH_VIEW: &'static str = "world_depth_texture_view";

/// The label of the vertex buffer of the quad that covers the screen.
pub const QUAD_VERTEX_BUFFER: &'static str = "screen_quad_vertex_buffer";

/// The label of the index buffer of the quad that covers the screen.
pub const QUAD_INDEX_BUFFER: &'static str = "screen_quad_index_buffer";

/// The label of the sampler through which the offscreen colour is read.
pub const DEFAULT_SAMPLER: &'static str = "default_sampler";

/// The label of the layout that binds the offscreen colour as a texture.
pub const WORLD_TEXTURE_LAYOUT: &'static str = "world_texture_bind_group_layout";

/// The label of the group that binds the offscreen colour as a texture.
pub const WORLD_TEXTURE_BIND_GROUP: &'static str = "world_texture_bind_group";

/// The label of the compositor's shader program.
pub const QUAD_SHADER: &'static str = "screen_quad_shader";

/// Where the source of the compositor's shader program lies.
pub const QUAD_SHADER_PATH: &'static str = "./src/assets/shaders/screen_quad.wgsl";

/// The label of the compositor's pipeline.
pub const QUAD_PIPELINE: &'static str = "screen_quad_pipeline";

/// The label of the encoder of every frame.
pub const FRAME_ENCODER: &'static str = "command_encoder";

/// Width of the offscreen targets, whatever the size of the surface.
pub const OFFSCREEN_WIDTH: u32 = 1600;

/// Height of the offscreen targets, whatever the size of the surface.
pub const OFFSCREEN_HEIGHT: u32 = 1200;

/// Where a frame stands.
#[derive(Clone, Copy, Debug, PartialEq, Eq, Structural)]
pub enum FrameState {
    Idle,
    EncoderOpen,
    ScenePassDone,
    CompositePassDone,
    UiPassDone,
    Submitted,
    Presented,
}

impl FrameState {
    /// The state that the next step of a frame leads to.
    pub open spec fn successor(self) -> FrameState {
        match self {
            FrameState::Idle => FrameState::EncoderOpen,
            FrameState::EncoderOpen => FrameState::ScenePassDone,
            FrameState::ScenePassDone => FrameState::CompositePassDone,
            FrameState::CompositePassDone => FrameState::UiPassDone,
            FrameState::UiPassDone => FrameState::Submitted,
            FrameState::Submitted => FrameState::Presented,
            FrameState::Presented => FrameState::Idle,
        }
    }

    /// The state that the next step of a frame leads to.
    pub fn next(&self) -> (r: FrameState)
        ensures
            r == self.successor(),
    {
        match self {
            FrameState::Idle => FrameState::EncoderOpen,
            FrameState::EncoderOpen => FrameState::ScenePassDone,
            FrameState::ScenePassDone => FrameState::CompositePassDone,
            FrameState::CompositePassDone => FrameState::UiPassDone,
            FrameState::UiPassDone => FrameState::Submitted,
            FrameState::Submitted => FrameState::Presented,
            FrameState::Presented => FrameState::Idle,
        }
    }

    /// How many steps of a frame lie behind this state.
    pub open spec fn rank(self) -> int {
        match self {
            FrameState::Idle => 0,
            FrameState::EncoderOpen => 1,
            FrameState::ScenePassDone => 2,
            FrameState::CompositePassDone => 3,
            FrameState::UiPassDone => 4,
            FrameState::Submitted => 5,
            FrameState::Presented => 6,
        }
    }
}

/// The passes are bound to one order: each step of a frame leads to the
/// state one further on, so the scene pass lies behind the composite pass,
/// that behind the pass of the user interface, that behind the submission
/// and that behind the presentation; and the step after the presentation
/// leads back to where a frame can begin.
pub proof fn lemma_frame_order(state: FrameState)
    ensures
        state != FrameState::Presented ==> state.successor().rank() == state.rank() + 1,
        state == FrameState::Presented ==> state.successor() == FrameState::Idle,
        state.successor() != state,
        0 <= state.rank() <= 6,
{
}

/// What became of the attempt to acquire the surface's next image.
#[derive(Clone, Copy, Debug, PartialEq, Eq, Structural)]
pub enum SurfaceStatus {
    Acquired,
    Timeout,
    Outdated,
    Lost,
    OutOfMemory,
}

/// Why a step of a frame failed.
#[derive(Debug)]
pub enum FrameError {
    /// The step does not follow on the state that the frame stands in.
    OutOfOrder(FrameState),
    /// A resource that the frame needs is not in the registry.
    Missing(LookupError),
    /// The scene names a handle with nothing behind it.
    Registry(ContextError),
    /// The surface could not give an image for want of memory.
    OutOfMemory,
}

/// What became of the composite pass.
#[derive(Clone, Copy, Debug, PartialEq, Eq, Structural)]
pub enum Acquisition {
    /// The pass is recorded.
    Recorded,
    /// The surface gave no image: the frame is dropped, and the surface is
    /// to be configured anew where `reconfigure` says so.
    Skipped { reconfigure: bool },
}

/// What became of a frame.
#[derive(Debug)]
pub enum FrameOutcome {
    /// The frame was recorded, submitted and presented: `commands` is what
    /// was submitted, in order.
    Presented { commands: Vec<Command> },
    /// The surface gave no image: nothing was submitted, and the surface is
    /// to be configured anew where `reconfigure` says so.
    Skipped { reconfigure: bool },
}

/// The handles of what a frame looks up by label.
#[derive(Clone, Copy, Debug, PartialEq, Eq, Structural)]
pub struct FrameResources {
    pub color_view: usize,
    pub depth_view: usize,
    pub quad_pipeline: usize,
    pub quad_vertex_buffer: usize,
    pub quad_index_buffer: usize,
    pub world_bind_group: usize,
}

/// The colour that the composite pass clears the surface to.
pub open spec fn letterbox() -> Color {
    Color { r: 100, g: 200, b: 300, a: 1000 }
}

/// The composite pass: it begins on the surface's image, clearing it to
/// the letterbox colour, without depth; binds the quad's pipeline, the
/// offscreen colour as a texture at index 0, the quad's vertex buffer and
/// its 16-bit indices; draws the quad's six indices once; and ends.
pub open spec fn composite_pass(resources: FrameResources, width: u32, height: u32) -> Seq<Command> {
    seq![
        Command::BeginRenderPass {
            pass: PassKind::Composite,
            color: Attachment::Surface { width, height },
            depth: None,
            load: LoadOp::Clear(letterbox()),
        },
        Command::SetPipeline { pipeline: resources.quad_pipeline },
        Command::SetBindGroup { index: 0, bind_group: resources.world_bind_group },
        Command::SetVertexBuffer { slot: 0, buffer: resources.quad_vertex_buffer },
        Command::SetIndexBuffer {
            buffer: resources.quad_index_buffer,
            format: IndexFormat::Uint16,
        },
        Command::DrawIndexed { index_count: 6 },
        Command::EndRenderPass,
    ]
}

/// Whether all that a frame looks up by label is in the registry.
pub open spec fn all_present(ctx: &Context) -> bool {
    &&& has_label(ctx.texture_views@, WORLD_COLOR_VIEW@)
    &&& has_label(ctx.texture_views@, WORLD_DEPTH_VIEW@)
    &&& has_label(ctx.render_pipelines@, QUAD_PIPELINE@)
    &&& has_label(ctx.buffers@, QUAD_VERTEX_BUFFER@)
    &&& has_label(ctx.buffers@, QUAD_INDEX_BUFFER@)
    &&& has_label(ctx.bind_groups@, WORLD_TEXTURE_BIND_GROUP@)
}

/// The first label that a frame looks up and does not find, with its store.
pub open spec fn first_missing(ctx: &Context) -> (Seq<char>, Category) {
    if !has_label(ctx.texture_views@, WORLD_COLOR_VIEW@) {
        (WORLD_COLOR_VIEW@, Category::TextureView)
    } else if !has_label(ctx.texture_views@, WORLD_DEPTH_VIEW@) {
        (WORLD_DEPTH_VIEW@, Category::TextureView)
    } else if !has_label(ctx.render_pipelines@, QUAD_PIPELINE@) {
        (QUAD_PIPELINE@, Category::RenderPipeline)
    } else if !has_label(ctx.buffers@, QUAD_VERTEX_BUFFER@) {
        (QUAD_VERTEX_BUFFER@, Category::Buffer)
    } else if !has_label(ctx.buffers@, QUAD_INDEX_BUFFER@) {
        (QUAD_INDEX_BUFFER@, Category::Buffer)
    } else {
        (WORLD_TEXTURE_BIND_GROUP@, Category::BindGroup)
    }
}

/// The handles behind the labels that a frame looks up.
pub open spec fn resolved(ctx: &Context) -> FrameResources {
    FrameResources {
        color_view: index_of(ctx.texture_views@, WORLD_COLOR_VIEW@) as usize,
        depth_view: index_of(ctx.texture_views@, WORLD_DEPTH_VIEW@) as usize,
        quad_pipeline: index_of(ctx.render_pipelines@, QUAD_PIPELINE@) as usize,
        quad_vertex_buffer: index_of(ctx.buffers@, QUAD_VERTEX_BUFFER@) as usize,
        quad_index_buffer: index_of(ctx.buffers@, QUAD_INDEX_BUFFER@) as usize,
        world_bind_group: index_of(ctx.bind_groups@, WORLD_TEXTURE_BIND_GROUP@) as usize,
    }
}

/// Looks up, by their labels, what a frame draws with: the two offscreen
/// views, then the quad's pipeline, its vertex and index buffers, and the
/// group that binds the offscreen colour. The first label that is missing
/// is the one reported.
pub fn resolve(ctx: &Context) -> (r: Result<FrameResources, LookupError>)
    ensures
        r is Ok <==> all_present(ctx),
        r matches Ok(found) ==> found == resolved(ctx),
        r matches Err(e) ==> (e.label@, e.category) == first_missing(ctx),
{
    let color_view = match ctx.find_texture_view(WORLD_COLOR_VIEW) {
        Ok(id) => id,
        Err(e) => { return Err(e); },
    };
    let depth_view = match ctx.find_texture_view(WORLD_DEPTH_VIEW) {
        Ok(id) => id,
        Err(e) => { return Err(e); },
    };
    let quad_pipeline = match ctx.find_render_pipeline(QUAD_PIPELINE) {
        Ok(id) => id,
        Err(e) => { return Err(e); },
    };
    let quad_vertex_buffer = match ctx.find_buffer(QUAD_VERTEX_BUFFER) {
        Ok(id) => id,
        Err(e) => { return Err(e); },
    };
    let quad_index_buffer = match ctx.find_buffer(QUAD_INDEX_BUFFER) {
        Ok(id) => id,
        Err(e) => { return Err(e); },
    };
    let world_bind_group = match ctx.find_bind_group(WORLD_TEXTURE_BIND_GROUP) {
        Ok(id) => id,
        Err(e) => { return Err(e); },
    };
    Ok(
        FrameResources {
            color_view,
            depth_view,
            quad_pipeline,
            quad_vertex_buffer,
            quad_index_buffer,
            world_bind_group,
        },
    )
}

/// An offscreen target of the fixed extent, in `format`: one layer, one mip
/// level, one sample, to be rendered to and to be read as a texture.
pub open spec fn offscreen_target(format: TextureFormat) -> Texture {
    Texture {
        size: Extent3d { width: 1600, height: 1200, depth_or_array_layers: 1 },
        mip_level_count: 1,
        sample_count: 1,
        dimension: TextureDimension::D2,
        format,
        usage: TextureUsages {
            render_attachment: true,
            texture_binding: true,
            ..TextureUsages::none()
        },
    }
}

/// The sampler through which the offscreen colour is read.
pub open spec fn default_sampler() -> Sampler {
    Sampler {
        address_mode_u: AddressMode::Repeat,
        address_mode_v: AddressMode::Repeat,
        address_mode_w: AddressMode::Repeat,
        min_filter: FilterMode::Linear,
        mag_filter: FilterMode::Linear,
        mipmap_filter: FilterMode::Nearest,
    }
}

/// The two slots of the compositor's layout, both seen by the fragment
/// stage: the offscreen colour at slot 0, its sampler at slot 1.
pub open spec fn world_texture_slots() -> Seq<BindGroupLayoutEntry> {
    seq![
        BindGroupLayoutEntry {
            binding: 0,
            visibility: ShaderStages { vertex: false, fragment: true, compute: false },
            ty: BindingType::Texture {
                sample_type: TextureSampleType::Float { filterable: false },
                view_dimension: TextureViewDimension::D2,
                multisampled: false,
            },
        },
        BindGroupLayoutEntry {
            binding: 1,
            visibility: ShaderStages { vertex: false, fragment: true, compute: false },
            ty: BindingType::Sampler(SamplerBindingType::Filtering),
        },
    ]
}

/// The colour target of the compositor's pipeline: the surface's format,
/// written as it comes.
pub open spec fn surface_color_target(format: TextureFormat) -> ColorTargetState {
    ColorTargetState {
        format,
        blend: Some(BlendState::Replace),
        write_red: true,
        write_green: true,
        write_blue: true,
        write_alpha: true,
    }
}

/// Whether `ctx` holds exactly what the orchestrator creates at its start:
/// the two offscreen targets with their views, the quad's two buffers, the
/// sampler, the layout and the group that bind the offscreen colour, and the
/// compositor's shader and pipeline.
pub open spec fn populated(ctx: &Context) -> bool {
    &&& ctx.textures@ == seq![
        (WORLD_COLOR_TEXTURE@, offscreen_target(TextureFormat::Rgba32Float)),
        (WORLD_DEPTH_TEXTURE@, offscreen_target(TextureFormat::Depth32Float)),
    ]
    &&& ctx.texture_views@ == seq![
        (WORLD_COLOR_VIEW@, TextureView { texture: 0 }),
        (WORLD_DEPTH_VIEW@, TextureView { texture: 1 }),
    ]
    &&& ctx.samplers@ == seq![(DEFAULT_SAMPLER@, default_sampler())]
    &&& ctx.buffers@.len() == 2
    &&& ctx.buffers@[0].0 == QUAD_VERTEX_BUFFER@
    &&& encodes32(ctx.buffers@[0].1.data@, flat_words(square_vertices_spec()))
    &&& ctx.buffers@[0].1.usage == (BufferUsages { vertex: true, ..BufferUsages::none() })
    &&& ctx.buffers@[1].0 == QUAD_INDEX_BUFFER@
    &&& encodes16(ctx.buffers@[1].1.data@, square_indices_spec())
    &&& ctx.buffers@[1].1.usage == (BufferUsages { index: true, ..BufferUsages::none() })
    &&& ctx.bind_group_layouts@.len() == 1
    &&& ctx.bind_group_layouts@[0].0 == WORLD_TEXTURE_LAYOUT@
    &&& ctx.bind_group_layouts@[0].1.entries@ == world_texture_slots()
    &&& ctx.bind_groups@.len() == 1
    &&& ctx.bind_groups@[0].0 == WORLD_TEXTURE_BIND_GROUP@
    &&& ctx.bind_groups@[0].1.layout == 0
    &&& ctx.bind_groups@[0].1.entries@ == seq![
        BindGroupEntry { binding: 0, resource: BindingResource::TextureView(0) },
        BindGroupEntry { binding: 1, resource: BindingResource::Sampler(0) },
    ]
    &&& ctx.shaders@.len() == 1
    &&& ctx.shaders@[0].0 == QUAD_SHADER@
    &&& ctx.shaders@[0].1.code_path@ == QUAD_SHADER_PATH@
    &&& ctx.render_pipelines@.len() == 1
    &&& ctx.render_pipelines@[0].0 == QUAD_PIPELINE@
    &&& ctx.render_pipelines@[0].1.layout@ == seq![0usize]
    &&& ctx.render_pipelines@[0].1.shader == 0
    &&& canonical_layout(ctx.render_pipelines@[0].1.buffers@)
    &&& ctx.render_pipelines@[0].1.color_target == Some(
        surface_color_target(ctx.surface_config.format),
    )
    &&& ctx.render_pipelines@[0].1.depth_stencil is None
    &&& ctx.render_pipelines@[0].1.topology == PrimitiveTopology::TriangleList
    &&& ctx.render_pipelines@[0].1.polygon_mode == PolygonMode::Fill
}

/// The frame orchestrator: the device context with the registry, and where
/// the current frame stands.
pub struct Graphics {
    pub ctx: Context,
    pub renderer: Renderer,
    pub gui: Gui,
    pub state: FrameState,
    pub encoder: CommandEncoder,
    pub pending_resize: Option<PhysicalSize>,
    /// Whether the surface is yet to be configured to the configuration
    /// that the context holds.
    pub surface_stale: bool,
}

impl Graphics {
    /// Makes the context for a surface of `size` with capabilities `caps`,
    /// and creates in its registry what every frame draws with: see
    /// `populated`. It fails where no context can be made, and only there.
    pub fn new(size: PhysicalSize, caps: &SurfaceCapabilities) -> (r: Result<Self, StartupError>)
        ensures
            r is Ok <==> startup_error(size, *caps) is None,
            r matches Err(e) ==> startup_error(size, *caps) == Some(e),
            r matches Ok(graphics) ==> {
                &&& graphics.state == FrameState::Idle
                &&& graphics.pending_resize is None
                &&& graphics.surface_stale
                &&& graphics.encoder.commands@.len() == 0
                &&& graphics.ctx.surface_config.width == size.width
                &&& graphics.ctx.surface_config.height == size.height
                &&& crate::context::is_preferred(caps.formats@, graphics.ctx.surface_config.format)
                &&& graphics.ctx.surface_config.present_mode == caps.present_modes@[0]
                &&& graphics.ctx.surface_config.alpha_mode == caps.alpha_modes@[0]
                &&& graphics.ctx.extent_valid()
                &&& graphics.gui == (Gui {
                    target_color_format: graphics.ctx.surface_config.format,
                    target_depth_format: None,
                    msaa_samples: 1,
                })
                &&& populated(&graphics.ctx)
                &&& all_present(&graphics.ctx)
            },
    {
        let mut ctx = match Context::new(size, caps) {
            Ok(ctx) => ctx,
            Err(e) => { return Err(e); },
        };
        let renderer = Renderer::new(&ctx);
        let surface_format = ctx.surface_config.format;
        let gui = Gui::new(surface_format, None);
        proof {
            reveal_strlit("world_color_texture");
            reveal_strlit("world_depth_texture");
            reveal_strlit("world_color_texture_view");
            reveal_strlit("world_depth_texture_view");
            reveal_strlit("screen_quad_vertex_buffer");
            reveal_strlit("screen_quad_index_buffer");
            assert(WORLD_COLOR_TEXTURE@ != WORLD_DEPTH_TEXTURE@) by {
                assert(WORLD_COLOR_TEXTURE@[6] != WORLD_DEPTH_TEXTURE@[6]);
            }
            assert(WORLD_COLOR_VIEW@ != WORLD_DEPTH_VIEW@) by {
                assert(WORLD_COLOR_VIEW@[6] != WORLD_DEPTH_VIEW@[6]);
            }
            assert(QUAD_VERTEX_BUFFER@ != QUAD_INDEX_BUFFER@) by {
                assert(QUAD_VERTEX_BUFFER@.len() != QUAD_INDEX_BUFFER@.len());
            }
        }
        let usage = TextureUsages::render_attachment().union(TextureUsages::texture_binding());
        let extent = Extent3d {
            width: OFFSCREEN_WIDTH,
            height: OFFSCREEN_HEIGHT,
            depth_or_array_layers: 1,
        };
        let ghost ctx0 = ctx;
        let color_texture = match ctx.create_texture(
            WORLD_COLOR_TEXTURE,
            extent,
            1,
            1,
            TextureDimension::D2,
            TextureFormat::Rgba32Float,
            usage,
        ) {
            Ok(id) => id,
            Err(_) => unreached(),
        };
        let ghost ctx1 = ctx;
        proof {
            assert(ctx1.textures@.drop_last() =~= ctx0.textures@);
            lemma_round_trip(ctx0.textures@, ctx1.textures@, WORLD_COLOR_TEXTURE@);
        }
        let color_view = match ctx.create_texture_view(color_texture, WORLD_COLOR_VIEW) {
            Ok(id) => id,
            Err(_) => unreached(),
        };
        let ghost ctx2 = ctx;
        proof {
            assert(ctx2.texture_views@.drop_last() =~= ctx1.texture_views@);
            lemma_round_trip(ctx1.texture_views@, ctx2.texture_views@, WORLD_COLOR_VIEW@);
        }
        let depth_texture = match ctx.create_texture(
            WORLD_DEPTH_TEXTURE,
            extent,
            1,
            1,
            TextureDimension::D2,
            TextureFormat::Depth32Float,
            usage,
        ) {
            Ok(id) => id,
            Err(_) => unreached(),
        };
        let depth_view = match ctx.create_texture_view(depth_texture, WORLD_DEPTH_VIEW) {
            Ok(id) => id,
            Err(_) => unreached(),
        };
        let ghost ctx3 = ctx;
        proof {
            assert(ctx3.texture_views@.drop_last() =~= ctx2.texture_views@);
            lemma_round_trip(ctx2.texture_views@, ctx3.texture_views@, WORLD_DEPTH_VIEW@);
        }
        let vertices = square_vertices();
        let vertex_data = vertex_bytes(vertices.as_slice());
        let quad_vertices = match ctx.create_buffer(
            QUAD_VERTEX_BUFFER,
            vertex_data.as_slice(),
            BufferUsages::vertex(),
        ) {
            Ok(id) => id,
            Err(_) => unreached(),
        };
        let ghost ctx4 = ctx;
        proof {
            lemma_round_trip(ctx3.buffers@, ctx4.buffers@, QUAD_VERTEX_BUFFER@);
        }
        let indices = square_indices();
        let index_data = index_bytes(indices.as_slice());
        let quad_indices = match ctx.create_buffer(
            QUAD_INDEX_BUFFER,
            index_data.as_slice(),
            BufferUsages::index(),
        ) {
            Ok(id) => id,
            Err(_) => unreached(),
        };
        let ghost ctx5 = ctx;
        proof {
            lemma_round_trip(ctx4.buffers@, ctx5.buffers@, QUAD_INDEX_BUFFER@);
            assert(ctx5.buffers@[0] == ctx5.buffers@.drop_last()[0]);
        }
        let sampler = match ctx.create_sampler(
            DEFAULT_SAMPLER,
            AddressMode::Repeat,
            AddressMode::Repeat,
            AddressMode::Repeat,
            FilterMode::Linear,
            FilterMode::Linear,
            FilterMode::Nearest,
        ) {
            Ok(id) => id,
            Err(_) => unreached(),
        };
        let mut slots: Vec<BindGroupLayoutEntry> = Vec::new();
        slots.push(
            BindGroupLayoutEntry {
                binding: 0,
                visibility: ShaderStages::fragment(),
                ty: BindingType::Texture {
                    sample_type: TextureSampleType::Float { filterable: false },
                    view_dimension: TextureViewDimension::D2,
                    multisampled: false,
                },
            },
        );
        slots.push(
            BindGroupLayoutEntry {
                binding: 1,
                visibility: ShaderStages::fragment(),
                ty: BindingType::Sampler(SamplerBindingType::Filtering),
            },
        );
        assert(slots@ =~= world_texture_slots());
        let layout = match ctx.create_bind_group_layout(WORLD_TEXTURE_LAYOUT, slots) {
            Ok(id) => id,
            Err(_) => unreached(),
        };
        let mut entries: Vec<BindGroupEntry> = Vec::new();
        entries.push(
            BindGroupEntry { binding: 0, resource: BindingResource::TextureView(color_view) },
        );
        entries.push(BindGroupEntry { binding: 1, resource: BindingResource::Sampler(sampler) });
        assert(entries@ =~= seq![
            BindGroupEntry { binding: 0, resource: BindingResource::TextureView(0) },
            BindGroupEntry { binding: 1, resource: BindingResource::Sampler(0) },
        ]);
        let group = match ctx.create_bind_group(WORLD_TEXTURE_BIND_GROUP, layout, entries) {
            Ok(id) => id,
            Err(_) => unreached(),
        };
        let shader = match ctx.create_shader(QUAD_SHADER, QUAD_SHADER_PATH) {
            Ok(id) => id,
            Err(_) => unreached(),
        };
        let mut layouts: Vec<usize> = Vec::new();
        layouts.push(layout);
        assert(layouts@ =~= seq![0usize]);
        let mut buffers: Vec<VertexBufferLayout> = Vec::new();
        buffers.push(Vertex::buffer_layout());
        let pipeline = match ctx.create_render_pipeline(
            QUAD_PIPELINE,
            layouts,
            shader,
            buffers,
            Some(
                ColorTargetState {
                    format: surface_format,
                    blend: Some(BlendState::Replace),
                    write_red: true,
                    write_green: true,
                    write_blue: true,
                    write_alpha: true,
                },
            ),
            None,
            PrimitiveTopology::TriangleList,
            PolygonMode::Fill,
        ) {
            Ok(id) => id,
            Err(_) => unreached(),
        };
        proof {
            assert(ctx.textures@ =~= seq![
                (WORLD_COLOR_TEXTURE@, offscreen_target(TextureFormat::Rgba32Float)),
                (WORLD_DEPTH_TEXTURE@, offscreen_target(TextureFormat::Depth32Float)),
            ]);
            assert(ctx.texture_views@ =~= seq![
                (WORLD_COLOR_VIEW@, TextureView { texture: 0 }),
                (WORLD_DEPTH_VIEW@, TextureView { texture: 1 }),
            ]);
            assert(ctx.samplers@ =~= seq![(DEFAULT_SAMPLER@, default_sampler())]);
            assert(ctx.texture_views@[0].0 == WORLD_COLOR_VIEW@);
            assert(ctx.texture_views@[1].0 == WORLD_DEPTH_VIEW@);
            assert(ctx.render_pipelines@[0].0 == QUAD_PIPELINE@);
            assert(ctx.buffers@[0].0 == QUAD_VERTEX_BUFFER@);
            assert(ctx.buffers@[1].0 == QUAD_INDEX_BUFFER@);
            assert(ctx.bind_groups@[0].0 == WORLD_TEXTURE_BIND_GROUP@);
        }
        Ok(
            Graphics {
                ctx,
                renderer,
                gui,
                state: FrameState::Idle,
                encoder: CommandEncoder::new(FRAME_ENCODER),
                pending_resize: None,
                surface_stale: true,
            },
        )
    }
}

/// Whether a resize that was put off takes effect: there is one, and it has
/// no zero in it.
pub open spec fn takes_effect(pending: Option<PhysicalSize>) -> bool {
    pending matches Some(size) && size.width != 0 && size.height != 0
}

/// The configuration after a resize that was put off has had its turn.
pub open spec fn reconfigured(
    config: SurfaceConfiguration,
    pending: Option<PhysicalSize>,
) -> SurfaceConfiguration {
    if takes_effect(pending) {
        SurfaceConfiguration {
            width: pending->Some_0.width,
            height: pending->Some_0.height,
            ..config
        }
    } else {
        config
    }
}

/// The first label that the composite pass looks up and does not find,
/// with its store.
pub open spec fn quad_missing(ctx: &Context) -> (Seq<char>, Category) {
    if !has_label(ctx.render_pipelines@, QUAD_PIPELINE@) {
        (QUAD_PIPELINE@, Category::RenderPipeline)
    } else if !has_label(ctx.buffers@, QUAD_VERTEX_BUFFER@) {
        (QUAD_VERTEX_BUFFER@, Category::Buffer)
    } else if !has_label(ctx.buffers@, QUAD_INDEX_BUFFER@) {
        (QUAD_INDEX_BUFFER@, Category::Buffer)
    } else {
        (WORLD_TEXTURE_BIND_GROUP@, Category::BindGroup)
    }
}

/// Whether all that the composite pass looks up is in the registry.
pub open spec fn quad_present(ctx: &Context) -> bool {
    &&& has_label(ctx.render_pipelines@, QUAD_PIPELINE@)
    &&& has_label(ctx.buffers@, QUAD_VERTEX_BUFFER@)
    &&& has_label(ctx.buffers@, QUAD_INDEX_BUFFER@)
    &&& has_label(ctx.bind_groups@, WORLD_TEXTURE_BIND_GROUP@)
}

impl Graphics {
    /// Whether `self` is `before` but for the state of the frame and what
    /// is recorded.
    pub open spec fn same_setup(&self, before: &Graphics) -> bool {
        &&& self.ctx == before.ctx
        &&& self.renderer == before.renderer
        &&& self.gui == before.gui
        &&& self.pending_resize == before.pending_resize
        &&& self.surface_stale == before.surface_stale
    }

    /// Whether the frame of `before` was dropped: nothing is recorded, a new
    /// frame can begin, and nothing else differs.
    pub open spec fn abandoned(&self, before: &Graphics) -> bool {
        &&& self.same_setup(before)
        &&& self.state == FrameState::Idle
        &&& self.encoder.commands@.len() == 0
    }

    /// Whether the frame of `before` was dropped because the surface has to
    /// be configured anew: as `abandoned`, but that the surface is now
    /// stale.
    pub open spec fn dropped_for_surface(&self, before: &Graphics) -> bool {
        &&& self.ctx == before.ctx
        &&& self.renderer == before.renderer
        &&& self.gui == before.gui
        &&& self.pending_resize == before.pending_resize
        &&& self.surface_stale
        &&& self.state == FrameState::Idle
        &&& self.encoder.commands@.len() == 0
    }

    /// Whether the frame of `before` went one step on, recording `added`.
    pub open spec fn advanced(&self, before: &Graphics, added: Seq<Command>) -> bool {
        &&& self.same_setup(before)
        &&& self.state == before.state.successor()
        &&& self.encoder.commands@ == before.encoder.commands@ + added
    }

    /// Where the frame stands.
    pub fn state(&self) -> (r: FrameState)
        ensures
            r == self.state,
    {
        self.state
    }

    /// Notes that the surface has been configured to the configuration that
    /// the context holds.
    pub fn surface_configured(&mut self)
        ensures
            !final(self).surface_stale,
            final(self).ctx == old(self).ctx,
            final(self).renderer == old(self).renderer,
            final(self).gui == old(self).gui,
            final(self).state == old(self).state,
            final(self).encoder == old(self).encoder,
            final(self).pending_resize == old(self).pending_resize,
    {
        self.surface_stale = false;
    }

    /// Takes a new window size. A size with a zero in it is ignored.
    /// Between frames any other becomes the surface's extent at once, and
    /// the surface has to be configured anew: the answer is `true`, and
    /// until that is done no frame is presented. While a frame is under way
    /// the size is put off until the next frame begins.
    pub fn resize(&mut self, new_size: &PhysicalSize) -> (reconfigure: bool)
        ensures
            final(self).state == old(self).state,
            final(self).encoder == old(self).encoder,
            final(self).renderer == old(self).renderer,
            final(self).gui == old(self).gui,
            final(self).ctx.same_registry(&old(self).ctx),
            reconfigure == (old(self).state == FrameState::Idle && new_size.width != 0
                && new_size.height != 0),
            new_size.width == 0 || new_size.height == 0 ==> *final(self) == *old(self),
            reconfigure ==> final(self).pending_resize is None && final(self).ctx.surface_config
                == (SurfaceConfiguration {
                width: new_size.width,
                height: new_size.height,
                ..old(self).ctx.surface_config
            }),
            !reconfigure ==> final(self).ctx == old(self).ctx,
            !reconfigure && new_size.width != 0 && new_size.height != 0 ==> final(self).pending_resize
                == Some(*new_size),
            final(self).surface_stale == (old(self).surface_stale || reconfigure),
            old(self).ctx.extent_valid() ==> final(self).ctx.extent_valid(),
    {
        if new_size.width == 0 || new_size.height == 0 {
            return false;
        }
        match self.state {
            FrameState::Idle => {
                self.pending_resize = None;
                self.surface_stale = true;
                self.ctx.resize(new_size)
            },
            _ => {
                self.pending_resize = Some(*new_size);
                false
            },
        }
    }

    /// Begins a frame: a resize that was put off takes effect, and the
    /// encoder of the frame is opened. The answer says whether the surface
    /// has to be configured before its next image is acquired: it was not
    /// configured since the last resize, or a resize took effect just now.
    /// A frame can begin only where none is under way.
    pub fn begin_frame(&mut self) -> (r: Result<bool, FrameError>)
        ensures
            old(self).state != FrameState::Idle ==> (r matches Err(FrameError::OutOfOrder(state))
                && state == old(self).state) && *final(self) == *old(self),
            old(self).state == FrameState::Idle ==> {
                &&& r matches Ok(reconfigure) && reconfigure == (old(self).surface_stale
                    || takes_effect(old(self).pending_resize))
                &&& final(self).surface_stale == (old(self).surface_stale || takes_effect(
                    old(self).pending_resize,
                ))
                &&& final(self).state == FrameState::EncoderOpen
                &&& final(self).encoder.commands@.len() == 0
                &&& final(self).pending_resize is None
                &&& final(self).ctx.surface_config == reconfigured(
                    old(self).ctx.surface_config,
                    old(self).pending_resize,
                )
                &&& final(self).ctx.same_registry(&old(self).ctx)
                &&& final(self).renderer == old(self).renderer
                &&& final(self).gui == old(self).gui
            },
    {
        match self.state {
            FrameState::Idle => {},
            _ => { return Err(FrameError::OutOfOrder(self.state)); },
        }
        let resized = match self.pending_resize {
            Some(size) => self.ctx.resize(&size),
            None => false,
        };
        if resized {
            self.surface_stale = true;
        }
        self.pending_resize = None;
        self.encoder = self.ctx.create_encoder(FRAME_ENCODER);
        self.state = FrameState::EncoderOpen;
        Ok(self.surface_stale)
    }

    fn abandon(&mut self)
        ensures
            final(self).abandoned(old(self)),
    {
        self.encoder = CommandEncoder::new(FRAME_ENCODER);
        self.state = FrameState::Idle;
    }

    /// Records the scene pass, which draws `world` as `camera` sees it into
    /// the offscreen targets. The two views are looked up by their labels.
    /// It follows on the opening of the encoder only. Where a view is
    /// missing or the scene names a handle with nothing behind it, the
    /// frame is dropped.
    pub fn record_scene(&mut self, world: &World, camera: &PerspectiveCamera) -> (r: Result<
        (),
        FrameError,
    >)
        ensures
            old(self).state != FrameState::EncoderOpen ==> (r matches Err(
                FrameError::OutOfOrder(state),
            ) && state == old(self).state) && *final(self) == *old(self),
            old(self).state == FrameState::EncoderOpen ==> {
                let ctx = &old(self).ctx;
                let color = index_of(ctx.texture_views@, WORLD_COLOR_VIEW@) as usize;
                let depth = index_of(ctx.texture_views@, WORLD_DEPTH_VIEW@) as usize;
                if !has_label(ctx.texture_views@, WORLD_COLOR_VIEW@) {
                    &&& r matches Err(FrameError::Missing(e)) && e.label@ == WORLD_COLOR_VIEW@
                        && e.category == Category::TextureView
                    &&& final(self).abandoned(old(self))
                } else if !has_label(ctx.texture_views@, WORLD_DEPTH_VIEW@) {
                    &&& r matches Err(FrameError::Missing(e)) && e.label@ == WORLD_DEPTH_VIEW@
                        && e.category == Category::TextureView
                    &&& final(self).abandoned(old(self))
                } else {
                    match scene_fault(ctx, world.models@, camera.bind_group_spec(), color, depth) {
                        Some(fault) => {
                            &&& r matches Err(FrameError::Registry(e)) && e == fault
                            &&& final(self).abandoned(old(self))
                        },
                        None => {
                            &&& r is Ok
                            &&& final(self).advanced(
                                old(self),
                                scene_pass(world.models@, camera.bind_group_spec(), color, depth),
                            )
                        },
                    }
                }
            },
    {
        match self.state {
            FrameState::EncoderOpen => {},
            _ => { return Err(FrameError::OutOfOrder(self.state)); },
        }
        let color = match self.ctx.find_texture_view(WORLD_COLOR_VIEW) {
            Ok(id) => id,
            Err(e) => {
                self.abandon();
                return Err(FrameError::Missing(e));
            },
        };
        let depth = match self.ctx.find_texture_view(WORLD_DEPTH_VIEW) {
            Ok(id) => id,
            Err(e) => {
                self.abandon();
                return Err(FrameError::Missing(e));
            },
        };
        match self.renderer.render(&self.ctx, world, camera, &mut self.encoder, color, depth) {
            Ok(()) => {
                self.state = FrameState::ScenePassDone;
                Ok(())
            },
            Err(e) => {
                self.abandon();
                Err(FrameError::Registry(e))
            },
        }
    }

    /// Records the composite pass, which draws the offscreen colour onto
    /// the surface's image, where one was acquired: see `composite_pass`.
    /// What it draws with is looked up by label. It follows on the scene
    /// pass only. Where the surface is out of date or lost, or was not
    /// configured since the last resize, the frame is dropped and the
    /// surface is to be configured anew: it counts as stale until that is
    /// done. Where the surface
    /// timed out, the frame is dropped; where it is out of memory, or a
    /// label is missing, the frame is dropped and the error says why.
    pub fn record_composite(&mut self, surface: SurfaceStatus) -> (r: Result<
        Acquisition,
        FrameError,
    >)
        ensures
            old(self).state != FrameState::ScenePassDone ==> (r matches Err(
                FrameError::OutOfOrder(state),
            ) && state == old(self).state) && *final(self) == *old(self),
            old(self).state == FrameState::ScenePassDone ==> match surface {
                SurfaceStatus::OutOfMemory => r matches Err(FrameError::OutOfMemory)
                    && final(self).abandoned(old(self)),
                SurfaceStatus::Timeout => r matches Ok(Acquisition::Skipped { reconfigure: false })
                    && final(self).abandoned(old(self)),
                SurfaceStatus::Outdated => r matches Ok(Acquisition::Skipped { reconfigure: true })
                    && final(self).dropped_for_surface(old(self)),
                SurfaceStatus::Lost => r matches Ok(Acquisition::Skipped { reconfigure: true })
                    && final(self).dropped_for_surface(old(self)),
                SurfaceStatus::Acquired => if old(self).surface_stale {
                    &&& r matches Ok(Acquisition::Skipped { reconfigure: true })
                    &&& final(self).dropped_for_surface(old(self))
                } else if quad_present(&old(self).ctx) {
                    &&& r matches Ok(Acquisition::Recorded)
                    &&& final(self).advanced(
                        old(self),
                        composite_pass(
                            resolved(&old(self).ctx),
                            old(self).ctx.surface_config.width,
                            old(self).ctx.surface_config.height,
                        ),
                    )
                } else {
                    &&& r matches Err(FrameError::Missing(e)) && (e.label@, e.category)
                        == quad_missing(&old(self).ctx)
                    &&& final(self).abandoned(old(self))
                },
            },
    {
        match self.state {
            FrameState::ScenePassDone => {},
            _ => { return Err(FrameError::OutOfOrder(self.state)); },
        }
        match surface {
            SurfaceStatus::Acquired => {
                if self.surface_stale {
                    self.abandon();
                    return Ok(Acquisition::Skipped { reconfigure: true });
                }
            },
            SurfaceStatus::OutOfMemory => {
                self.abandon();
                return Err(FrameError::OutOfMemory);
            },
            SurfaceStatus::Timeout => {
                self.abandon();
                return Ok(Acquisition::Skipped { reconfigure: false });
            },
            SurfaceStatus::Outdated => {
                self.abandon();
                self.surface_stale = true;
                return Ok(Acquisition::Skipped { reconfigure: true });
            },
            SurfaceStatus::Lost => {
                self.abandon();
                self.surface_stale = true;
                return Ok(Acquisition::Skipped { reconfigure: true });
            },
        }
        let pipeline = match self.ctx.find_render_pipeline(QUAD_PIPELINE) {
            Ok(id) => id,
            Err(e) => {
                self.abandon();
                return Err(FrameError::Missing(e));
            },
        };
        let vertex_buffer = match self.ctx.find_buffer(QUAD_VERTEX_BUFFER) {
            Ok(id) => id,
            Err(e) => {
                self.abandon();
                return Err(FrameError::Missing(e));
            },
        };
        let index_buffer = match self.ctx.find_buffer(QUAD_INDEX_BUFFER) {
            Ok(id) => id,
            Err(e) => {
                self.abandon();
                return Err(FrameError::Missing(e));
            },
        };
        let bind_group = match self.ctx.find_bind_group(WORLD_TEXTURE_BIND_GROUP) {
            Ok(id) => id,
            Err(e) => {
                self.abandon();
                return Err(FrameError::Missing(e));
            },
        };
        let ghost before = self.encoder.commands@;
        let width = self.ctx.surface_config.width;
        let height = self.ctx.surface_config.height;
        self.encoder.push(
            Command::BeginRenderPass {
                pass: PassKind::Composite,
                color: Attachment::Surface { width, height },
                depth: None,
                load: LoadOp::Clear(Color { r: 100, g: 200, b: 300, a: 1000 }),
            },
        );
        self.encoder.push(Command::SetPipeline { pipeline });
        self.encoder.push(Command::SetBindGroup { index: 0, bind_group });
        self.encoder.push(Command::SetVertexBuffer { slot: 0, buffer: vertex_buffer });
        self.encoder.push(
            Command::SetIndexBuffer { buffer: index_buffer, format: IndexFormat::Uint16 },
        );
        self.encoder.push(Command::DrawIndexed { index_count: 6 });
        self.encoder.push(Command::EndRenderPass);
        proof {
            assert(self.encoder.commands@ =~= before + composite_pass(
                resolved(&old(self).ctx),
                width,
                height,
            ));
        }
        self.state = FrameState::CompositePassDone;
        Ok(Acquisition::Recorded)
    }

    /// Records the pass of the user interface over what the composite pass
    /// drew: see `ui_pass`. It follows on the composite pass only.
    pub fn record_ui(&mut self, textures: &TexturesDelta) -> (r: Result<(), FrameError>)
        ensures
            old(self).state != FrameState::CompositePassDone ==> (r matches Err(
                FrameError::OutOfOrder(state),
            ) && state == old(self).state) && *final(self) == *old(self),
            old(self).state == FrameState::CompositePassDone ==> r is Ok && final(self).advanced(
                old(self),
                ui_pass(
                    textures.set@,
                    textures.free@,
                    old(self).ctx.surface_config.width,
                    old(self).ctx.surface_config.height,
                ),
            ),
    {
        match self.state {
            FrameState::CompositePassDone => {},
            _ => { return Err(FrameError::OutOfOrder(self.state)); },
        }
        let screen = PhysicalSize {
            width: self.ctx.surface_config.width,
            height: self.ctx.surface_config.height,
        };
        self.gui.draw(&mut self.encoder, screen, textures);
        self.state = FrameState::UiPassDone;
        Ok(())
    }

    /// Closes the encoder and hands out what was recorded, for the queue.
    /// It follows on the pass of the user interface only.
    pub fn submit(&mut self) -> (r: Result<Vec<Command>, FrameError>)
        ensures
            old(self).state != FrameState::UiPassDone ==> (r matches Err(
                FrameError::OutOfOrder(state),
            ) && state == old(self).state) && *final(self) == *old(self),
            old(self).state == FrameState::UiPassDone ==> {
                &&& r matches Ok(commands) && commands@ == old(self).encoder.commands@
                &&& final(self).state == FrameState::Submitted
                &&& final(self).encoder.commands@.len() == 0
                &&& final(self).same_setup(old(self))
            },
    {
        match self.state {
            FrameState::UiPassDone => {},
            _ => { return Err(FrameError::OutOfOrder(self.state)); },
        }
        let mut closed = CommandEncoder::new(FRAME_ENCODER);
        std::mem::swap(&mut self.encoder, &mut closed);
        self.state = FrameState::Submitted;
        Ok(closed.finish())
    }

    /// Notes that the surface's image was presented. It follows on the
    /// submission only.
    pub fn present(&mut self) -> (r: Result<(), FrameError>)
        ensures
            old(self).state != FrameState::Submitted ==> (r matches Err(
                FrameError::OutOfOrder(state),
            ) && state == old(self).state) && *final(self) == *old(self),
            old(self).state == FrameState::Submitted ==> r is Ok && final(self).advanced(
                old(self),
                Seq::empty(),
            ),
    {
        match self.state {
            FrameState::Submitted => {},
            _ => { return Err(FrameError::OutOfOrder(self.state)); },
        }
        self.state = FrameState::Presented;
        assert(self.encoder.commands@ =~= old(self).encoder.commands@ + Seq::<Command>::empty());
        Ok(())
    }

    /// Ends the frame: the next can begin. It follows on the presentation
    /// only.
    pub fn end_frame(&mut self) -> (r: Result<(), FrameError>)
        ensures
            old(self).state != FrameState::Presented ==> (r matches Err(
                FrameError::OutOfOrder(state),
            ) && state == old(self).state) && *final(self) == *old(self),
            old(self).state == FrameState::Presented ==> r is Ok && final(self).advanced(
                old(self),
                Seq::empty(),
            ),
    {
        match self.state {
            FrameState::Presented => {},
            _ => { return Err(FrameError::OutOfOrder(self.state)); },
        }
        self.state = FrameState::Idle;
        assert(self.encoder.commands@ =~= old(self).encoder.commands@ + Seq::<Command>::empty());
        Ok(())
    }
}

/// What one frame submits: the scene pass into the offscreen targets, the
/// composite pass onto the surface, and the pass of the user interface over
/// it, in that order and in one encoder.
pub open spec fn frame_commands(
    ctx: &Context,
    models: Seq<Model>,
    camera_group: usize,
    set: Seq<TextureId>,
    free: Seq<TextureId>,
) -> Seq<Command> {
    scene_pass(models, camera_group, resolved(ctx).color_view, resolved(ctx).depth_view)
        + composite_pass(resolved(ctx), ctx.surface_config.width, ctx.surface_config.height)
        + ui_pass(set, free, ctx.surface_config.width, ctx.surface_config.height)
}

/// The passes that `commands` begins, in order.
pub open spec fn passes(commands: Seq<Command>) -> Seq<PassKind>
    decreases commands.len(),
{
    if commands.len() == 0 {
        Seq::empty()
    } else {
        match commands.last() {
            Command::BeginRenderPass { pass, .. } => passes(commands.drop_last()).push(pass),
            _ => passes(commands.drop_last()),
        }
    }
}

/// The passes of two recordings, one after the other, are the passes of
/// the first and then those of the second.
pub proof fn lemma_passes_concat(a: Seq<Command>, b: Seq<Command>)
    ensures
        passes(a + b) == passes(a) + passes(b),
    decreases b.len(),
{
    if b.len() == 0 {
        assert(a + b =~= a);
        assert(passes(a) + passes(b) =~= passes(a));
    } else {
        assert((a + b).drop_last() =~= a + b.drop_last());
        assert((a + b).last() == b.last());
        lemma_passes_concat(a, b.drop_last());
        match b.last() {
            Command::BeginRenderPass { pass, .. } => {
                assert(passes(a + b) =~= passes(a) + passes(b));
            },
            _ => {},
        }
    }
}

/// A recording that begins no pass has no passes.
pub proof fn lemma_no_passes(commands: Seq<Command>)
    requires
        forall|i: int| 0 <= i < commands.len() ==> !(#[trigger] commands[i] is BeginRenderPass),
    ensures
        passes(commands) == Seq::<PassKind>::empty(),
    decreases commands.len(),
{
    if commands.len() > 0 {
        assert(!(commands[commands.len() - 1] is BeginRenderPass));
        assert forall|i: int| 0 <= i < commands.drop_last().len() implies !(
        #[trigger] commands.drop_last()[i] is BeginRenderPass) by {
            assert(commands.drop_last()[i] == commands[i]);
        }
        lemma_no_passes(commands.drop_last());
    }
}

/// Drawing meshes begins no pass.
pub proof fn lemma_meshes_begin_nothing(meshes: Seq<Mesh>)
    ensures
        passes(meshes_commands(meshes)) == Seq::<PassKind>::empty(),
    decreases meshes.len(),
{
    if meshes.len() > 0 {
        lemma_meshes_begin_nothing(meshes.drop_last());
        let one = crate::renderer::mesh_commands(meshes.last());
        lemma_no_passes(one);
        lemma_passes_concat(meshes_commands(meshes.drop_last()), one);
    }
}

/// Drawing models begins no pass.
pub proof fn lemma_models_begin_nothing(models: Seq<Model>)
    ensures
        passes(models_commands(models)) == Seq::<PassKind>::empty(),
    decreases models.len(),
{
    if models.len() > 0 {
        lemma_models_begin_nothing(models.drop_last());
        let model = models.last();
        let head = seq![
            Command::SetPipeline { pipeline: model.pipeline },
            Command::SetBindGroup { index: 1, bind_group: model.bind_group },
        ];
        lemma_no_passes(head);
        lemma_meshes_begin_nothing(model.meshes@);
        lemma_passes_concat(head, meshes_commands(model.meshes@));
        lemma_passes_concat(models_commands(models.drop_last()), model_commands(model));
    }
}

/// Whatever the scene and the user interface hold, a frame begins exactly
/// three passes: the scene pass, then the composite pass, then the pass of
/// the user interface.
pub proof fn lemma_three_passes_in_order(
    ctx: &Context,
    models: Seq<Model>,
    camera_group: usize,
    set: Seq<TextureId>,
    free: Seq<TextureId>,
)
    ensures
        passes(frame_commands(ctx, models, camera_group, set, free)) == seq![
            PassKind::Scene,
            PassKind::Composite,
            PassKind::Ui,
        ],
{
    let res = resolved(ctx);
    let w = ctx.surface_config.width;
    let h = ctx.surface_config.height;
    let begin = seq![
        Command::BeginRenderPass {
            pass: PassKind::Scene,
            color: Attachment::View(res.color_view),
            depth: Some(res.depth_view),
            load: LoadOp::Clear(crate::renderer::background()),
        },
    ];
    let bind = seq![Command::SetBindGroup { index: 0, bind_group: camera_group }];
    let end = seq![Command::EndRenderPass];
    let scene = scene_pass(models, camera_group, res.color_view, res.depth_view);
    assert(scene =~= begin + bind + models_commands(models) + end);
    assert(passes(Seq::<Command>::empty()) =~= Seq::<PassKind>::empty());
    assert(begin.drop_last() =~= Seq::<Command>::empty());
    assert(passes(begin) =~= Seq::<PassKind>::empty().push(PassKind::Scene));
    assert(passes(begin) =~= seq![PassKind::Scene]);
    lemma_no_passes(bind);
    lemma_no_passes(end);
    lemma_models_begin_nothing(models);
    lemma_passes_concat(begin, bind);
    lemma_passes_concat(begin + bind, models_commands(models));
    lemma_passes_concat(begin + bind + models_commands(models), end);
    assert(passes(scene) =~= seq![PassKind::Scene]);

    let composite = composite_pass(res, w, h);
    let composite_begin = seq![composite[0]];
    let composite_rest = composite.subrange(1, 7);
    assert(composite =~= composite_begin + composite_rest);
    assert(composite_begin.drop_last() =~= Seq::<Command>::empty());
    assert(passes(composite_begin) =~= Seq::<PassKind>::empty().push(PassKind::Composite));
    assert(passes(composite_begin) =~= seq![PassKind::Composite]);
    lemma_no_passes(composite_rest);
    lemma_passes_concat(composite_begin, composite_rest);
    assert(passes(composite) =~= seq![PassKind::Composite]);

    let mid = overlay(w, h);
    let mid_a = seq![mid[0]];
    let mid_b = seq![mid[1]];
    let mid_c = mid.subrange(2, 4);
    assert(mid =~= mid_a + mid_b + mid_c);
    lemma_no_passes(mid_a);
    lemma_no_passes(mid_c);
    assert(mid_b.drop_last() =~= Seq::<Command>::empty());
    assert(passes(mid_b) =~= Seq::<PassKind>::empty().push(PassKind::Ui));
    assert(passes(mid_b) =~= seq![PassKind::Ui]);
    lemma_passes_concat(mid_a, mid_b);
    lemma_passes_concat(mid_a + mid_b, mid_c);
    assert(passes(mid) =~= seq![PassKind::Ui]);
    lemma_no_passes(uploads(set));
    lemma_no_passes(releases(free));
    lemma_passes_concat(uploads(set), mid);
    lemma_passes_concat(uploads(set) + mid, releases(free));
    let ui = ui_pass(set, free, w, h);
    assert(passes(ui) =~= seq![PassKind::Ui]);

    lemma_passes_concat(scene, composite);
    lemma_passes_concat(scene + composite, ui);
    assert(passes(scene + composite + ui) =~= seq![
        PassKind::Scene,
        PassKind::Composite,
        PassKind::Ui,
    ]);
}

impl Graphics {
    /// Whether `self` and `r` are what one frame leaves of `before`: see
    /// `render`. Of the context this reads only the surface's
    /// configuration, and the registry as it is after the frame, which is as
    /// it was before.
    ///
    /// A frame that finds another under way answers `OutOfOrder` and leaves
    /// all as it was. Else a resize that was put off takes effect, and no
    /// frame is left under way. Where the surface is stale, or became stale
    /// by that resize, the frame is skipped for the surface to be
    /// configured. Else the first label that the frame looks up and does
    /// not find is the error; else the first handle of the scene with
    /// nothing behind it; else `surface` decides: out of memory is an error,
    /// a timeout skips the frame, a surface out of date or lost skips it
    /// for the surface to be configured, and an image acquired has the
    /// frame presented, with the three passes as its commands. The surface
    /// is stale afterwards exactly where the answer asks for it to be
    /// configured.
    pub open spec fn rendered(
        &self,
        before: &Graphics,
        world: &World,
        camera: &PerspectiveCamera,
        surface: SurfaceStatus,
        textures: &TexturesDelta,
        r: Result<FrameOutcome, FrameError>,
    ) -> bool {
        let ctx = &self.ctx;
        let group = camera.bind_group_spec();
        &&& self.renderer == before.renderer
        &&& self.gui == before.gui
        &&& if before.state != FrameState::Idle {
            &&& r matches Err(FrameError::OutOfOrder(state)) && state == before.state
            &&& self.state == before.state
            &&& self.encoder == before.encoder
            &&& self.pending_resize == before.pending_resize
            &&& self.surface_stale == before.surface_stale
            &&& ctx.surface_config == before.ctx.surface_config
        } else {
            &&& self.state == FrameState::Idle
            &&& self.encoder.commands@.len() == 0
            &&& self.pending_resize is None
            &&& ctx.surface_config == reconfigured(
                before.ctx.surface_config,
                before.pending_resize,
            )
            &&& self.surface_stale == (r matches Ok(FrameOutcome::Skipped { reconfigure: true }))
            &&& if before.surface_stale || takes_effect(before.pending_resize) {
                r matches Ok(FrameOutcome::Skipped { reconfigure: true })
            } else if !all_present(ctx) {
                r matches Err(FrameError::Missing(e)) && (e.label@, e.category) == first_missing(
                    ctx,
                )
            } else {
                match scene_fault(
                    ctx,
                    world.models@,
                    group,
                    resolved(ctx).color_view,
                    resolved(ctx).depth_view,
                ) {
                    Some(fault) => r matches Err(FrameError::Registry(e)) && e == fault,
                    None => match surface {
                        SurfaceStatus::OutOfMemory => r matches Err(FrameError::OutOfMemory),
                        SurfaceStatus::Timeout => r matches Ok(
                            FrameOutcome::Skipped { reconfigure: false },
                        ),
                        SurfaceStatus::Outdated => r matches Ok(
                            FrameOutcome::Skipped { reconfigure: true },
                        ),
                        SurfaceStatus::Lost => r matches Ok(
                            FrameOutcome::Skipped { reconfigure: true },
                        ),
                        SurfaceStatus::Acquired => r matches Ok(
                            FrameOutcome::Presented { commands },
                        ) && commands@ == frame_commands(
                            ctx,
                            world.models@,
                            group,
                            textures.set@,
                            textures.free@,
                        ),
                    },
                }
            }
        }
    }

    /// Runs one frame: the encoder is opened, the scene pass, the composite
    /// pass and the pass of the user interface are recorded in that order,
    /// the recording is submitted, the image is presented, and the next
    /// frame can begin. `surface` says what became of the attempt to
    /// acquire the surface's image, `textures` what the user interface asks
    /// of its textures.
    ///
    /// Before anything is recorded, a resize that was put off takes effect.
    /// Where one did, or the surface was not configured since the last
    /// resize, the frame is skipped, for the surface to be configured: no
    /// frame is presented on a surface whose configuration is stale.
    /// Then all that the frame draws with is looked up by label; the first
    /// label that is missing is the error. A frame whose surface is out of
    /// date or lost is skipped, and the surface is to be configured anew;
    /// one whose surface timed out is skipped. Whenever the answer asks for
    /// the surface to be configured, the surface counts as stale until that
    /// is done. Whatever happens, no frame is left under way.
    pub fn render(
        &mut self,
        world: &World,
        camera: &PerspectiveCamera,
        surface: SurfaceStatus,
        textures: &TexturesDelta,
    ) -> (r: Result<FrameOutcome, FrameError>)
        ensures
            final(self).rendered(old(self), world, camera, surface, textures, r),
            final(self).ctx.same_registry(&old(self).ctx),
            old(self).state != FrameState::Idle ==> *final(self) == *old(self),
    {
        let reconfigure = match self.begin_frame() {
            Ok(reconfigure) => reconfigure,
            Err(e) => { return Err(e); },
        };
        if reconfigure {
            self.abandon();
            return Ok(FrameOutcome::Skipped { reconfigure: true });
        }
        match resolve(&self.ctx) {
            Ok(_) => {},
            Err(e) => {
                self.abandon();
                return Err(FrameError::Missing(e));
            },
        }
        match self.record_scene(world, camera) {
            Ok(()) => {},
            Err(e) => { return Err(e); },
        }
        match self.record_composite(surface) {
            Ok(Acquisition::Recorded) => {},
            Ok(Acquisition::Skipped { reconfigure }) => {
                return Ok(FrameOutcome::Skipped { reconfigure });
            },
            Err(e) => { return Err(e); },
        }
        match self.record_ui(textures) {
            Ok(()) => {},
            Err(_) => unreached(),
        }
        let commands = match self.submit() {
            Ok(commands) => commands,
            Err(_) => unreached(),
        };
        match self.present() {
            Ok(()) => {},
            Err(_) => unreached(),
        }
        match self.end_frame() {
            Ok(()) => {},
            Err(_) => unreached(),
        }
        proof {
            assert(commands@ =~= frame_commands(
                &self.ctx,
                world.models@,
                camera.bind_group_spec(),
                textures.set@,
                textures.free@,
            ));
        }
        Ok(FrameOutcome::Presented { commands })
    }
}

} // verus!
