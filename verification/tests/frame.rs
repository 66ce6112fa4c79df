use render_core::camera::{CameraBuilder, PerspectiveCamera};
use render_core::context::{
    BindGroupEntry, BindGroupLayoutEntry, Context, ContextError, SurfaceCapabilities,
};
use render_core::encoder::{
    Attachment, Color, Command, CommandEncoder, LoadOp, PassKind, TextureId,
};
use render_core::graphics::{
    resolve, Acquisition, FrameError, FrameOutcome, FrameState, Graphics,
    SurfaceStatus, DEFAULT_SAMPLER, QUAD_INDEX_BUFFER, QUAD_PIPELINE, QUAD_SHADER,
    QUAD_VERTEX_BUFFER, WORLD_COLOR_TEXTURE, WORLD_COLOR_VIEW, WORLD_DEPTH_TEXTURE,
    WORLD_DEPTH_VIEW, WORLD_TEXTURE_BIND_GROUP, WORLD_TEXTURE_LAYOUT,
};
use render_core::gui::{Gui, TexturesDelta};
use render_core::math::TransformUniform;
use render_core::model::Model;
use render_core::registry::Category;
use render_core::renderer::Renderer;
use render_core::resource::{
    AddressMode, BindingResource, BindingType, BlendState, BufferBindingType, BufferUsages,
    CompositeAlphaMode, Extent3d, FilterMode, IndexFormat, PhysicalSize, PolygonMode, PresentMode,
    PrimitiveTopology, SamplerBindingType, ShaderStages, TextureDimension, TextureFormat,
    TextureSampleType, TextureViewDimension,
};
use render_core::vertex_input::{
    index_bytes, square_indices, square_vertices, vertex_bytes, Vertex, ONE, ZERO,
};
use render_core::world::{Mesh, Transform, World};

fn caps() -> SurfaceCapabilities {
    SurfaceCapabilities {
        formats: vec![TextureFormat::Bgra8Unorm, TextureFormat::Bgra8UnormSrgb],
        present_modes: vec![PresentMode::Fifo],
        alpha_modes: vec![CompositeAlphaMode::Auto],
    }
}

fn graphics() -> Graphics {
    let mut g = Graphics::new(PhysicalSize { width: 800, height: 600 }, &caps()).unwrap();
    assert!(g.surface_stale);
    g.surface_configured();
    assert!(!g.surface_stale);
    g
}

fn identity() -> TransformUniform {
    TransformUniform {
        transform: [
            [ONE, ZERO, ZERO, ZERO],
            [ZERO, ONE, ZERO, ZERO],
            [ZERO, ZERO, ONE, ZERO],
            [ZERO, ZERO, ZERO, ONE],
        ],
    }
}

fn no_textures() -> TexturesDelta {
    TexturesDelta { set: vec![], free: vec![] }
}

/// A world of one model whose one mesh is the unit quad.
fn quad_world(ctx: &mut Context) -> World {
    let layout = ctx.find_bind_group_layout("camera_bind_group_layout").unwrap();
    let vb = ctx
        .create_buffer("quad_mesh_vertices", &vertex_bytes(&square_vertices()), BufferUsages::vertex())
        .unwrap();
    let ib = ctx
        .create_buffer("quad_mesh_indices", &index_bytes(&square_indices()), BufferUsages::index())
        .unwrap();
    let usage = BufferUsages::uniform().union(BufferUsages::copy_dst());
    let tb = ctx.create_buffer("quad_mesh_transform", &[0; 64], usage).unwrap();
    let slot = BindGroupLayoutEntry {
        binding: 0,
        visibility: ShaderStages::vertex(),
        ty: BindingType::Buffer {
            ty: BufferBindingType::Uniform,
            has_dynamic_offset: false,
            min_binding_size: None,
        },
    };
    let own = ctx.create_bind_group_layout("quad_mesh_layout", vec![slot]).unwrap();
    let group = ctx
        .create_bind_group(
            "quad_mesh_group",
            own,
            vec![BindGroupEntry { binding: 0, resource: BindingResource::Buffer(tb) }],
        )
        .unwrap();
    let shader = ctx.create_shader("quad_mesh_shader", "quad.wgsl").unwrap();
    let pipeline = ctx
        .create_render_pipeline(
            "quad_mesh_pipeline",
            vec![layout, own],
            shader,
            vec![Vertex::buffer_layout()],
            None,
            None,
            PrimitiveTopology::TriangleList,
            PolygonMode::Fill,
        )
        .unwrap();
    World {
        models: vec![Model {
            transform: Transform::default(),
            meshes: vec![Mesh { vertex_buffer: vb, index_buffer: ib, num_elements: 6 }],
            bind_group_layout: own,
            bind_group: group,
            pipeline,
            transform_buffer: tb,
        }],
    }
}

fn scene() -> (Graphics, World, PerspectiveCamera) {
    let mut g = graphics();
    let camera = CameraBuilder::new().build(&mut g.ctx, &identity()).unwrap();
    let world = quad_world(&mut g.ctx);
    (g, world, camera)
}

fn begun(commands: &[Command]) -> Vec<PassKind> {
    commands
        .iter()
        .filter_map(|c| match c {
            Command::BeginRenderPass { pass, .. } => Some(*pass),
            _ => None,
        })
        .collect()
}

#[test]
fn new_graphics_creates_what_every_frame_draws_with() {
    let g = graphics();
    assert_eq!(g.state(), FrameState::Idle);
    assert_eq!(g.pending_resize, None);
    assert_eq!(g.ctx.surface_config.format, TextureFormat::Bgra8UnormSrgb);
    assert_eq!(g.gui, Gui::new(TextureFormat::Bgra8UnormSrgb, None));
    assert_eq!(g.gui.msaa_samples, 1);
    let color = g.ctx.get_texture(WORLD_COLOR_TEXTURE);
    assert_eq!(color.size, Extent3d { width: 1600, height: 1200, depth_or_array_layers: 1 });
    assert_eq!(color.mip_level_count, 1);
    assert_eq!(color.sample_count, 1);
    assert_eq!(color.dimension, TextureDimension::D2);
    assert_eq!(color.format, TextureFormat::Rgba32Float);
    assert!(color.usage.render_attachment && color.usage.texture_binding);
    let depth = g.ctx.get_texture(WORLD_DEPTH_TEXTURE);
    assert_eq!(depth.format, TextureFormat::Depth32Float);
    assert_eq!(depth.size, color.size);
    assert_eq!(
        g.ctx.get_texture_view(WORLD_COLOR_VIEW).texture,
        g.ctx.find_texture(WORLD_COLOR_TEXTURE).unwrap()
    );
    assert_eq!(
        g.ctx.get_texture_view(WORLD_DEPTH_VIEW).texture,
        g.ctx.find_texture(WORLD_DEPTH_TEXTURE).unwrap()
    );
    assert_eq!(
        g.ctx.get_buffer(QUAD_VERTEX_BUFFER).data,
        vertex_bytes(&square_vertices())
    );
    assert_eq!(g.ctx.get_buffer(QUAD_VERTEX_BUFFER).usage, BufferUsages::vertex());
    assert_eq!(g.ctx.get_buffer(QUAD_INDEX_BUFFER).data, index_bytes(&square_indices()));
    assert_eq!(g.ctx.get_buffer(QUAD_INDEX_BUFFER).usage, BufferUsages::index());
    let sampler = g.ctx.get_sampler(DEFAULT_SAMPLER);
    assert_eq!(sampler.address_mode_u, AddressMode::Repeat);
    assert_eq!(sampler.min_filter, FilterMode::Linear);
    assert_eq!(sampler.mag_filter, FilterMode::Linear);
    assert_eq!(sampler.mipmap_filter, FilterMode::Nearest);
    let layout = g.ctx.get_bind_group_layout(WORLD_TEXTURE_LAYOUT);
    assert_eq!(layout.entries.len(), 2);
    assert_eq!(layout.entries[0].binding, 0);
    assert_eq!(layout.entries[0].visibility, ShaderStages::fragment());
    assert_eq!(
        layout.entries[0].ty,
        BindingType::Texture {
            sample_type: TextureSampleType::Float { filterable: false },
            view_dimension: TextureViewDimension::D2,
            multisampled: false,
        }
    );
    assert_eq!(layout.entries[1].binding, 1);
    assert_eq!(layout.entries[1].ty, BindingType::Sampler(SamplerBindingType::Filtering));
    let group = g.ctx.get_bind_group(WORLD_TEXTURE_BIND_GROUP);
    assert_eq!(
        group.entries,
        vec![
            BindGroupEntry {
                binding: 0,
                resource: BindingResource::TextureView(
                    g.ctx.find_texture_view(WORLD_COLOR_VIEW).unwrap()
                ),
            },
            BindGroupEntry {
                binding: 1,
                resource: BindingResource::Sampler(g.ctx.find_sampler(DEFAULT_SAMPLER).unwrap()),
            },
        ]
    );
    assert_eq!(
        g.ctx.get_shader(QUAD_SHADER).code_path,
        "./src/assets/shaders/screen_quad.wgsl"
    );
    let pipeline = g.ctx.get_render_pipeline(QUAD_PIPELINE);
    assert_eq!(pipeline.layout, vec![g.ctx.find_bind_group_layout(WORLD_TEXTURE_LAYOUT).unwrap()]);
    let target = pipeline.color_target.unwrap();
    assert_eq!(target.format, TextureFormat::Bgra8UnormSrgb);
    assert_eq!(target.blend, Some(BlendState::Replace));
    assert_eq!(pipeline.depth_stencil, None);
    assert!(resolve(&g.ctx).is_ok());
}

#[test]
fn new_graphics_fails_as_the_context_does() {
    let mut c = caps();
    c.formats.clear();
    assert_eq!(
        Graphics::new(PhysicalSize { width: 800, height: 600 }, &c).err(),
        Some(render_core::context::StartupError::NoSurfaceFormat)
    );
    assert_eq!(
        Graphics::new(PhysicalSize { width: 0, height: 0 }, &caps()).err(),
        Some(render_core::context::StartupError::ZeroSize)
    );
}

#[test]
fn one_frame_with_one_quad_records_three_passes_in_order() {
    let (mut g, world, camera) = scene();
    let outcome = g.render(&world, &camera, SurfaceStatus::Acquired, &no_textures()).unwrap();
    let commands = match outcome {
        FrameOutcome::Presented { commands } => commands,
        other => panic!("{:?}", other),
    };
    assert_eq!(begun(&commands), vec![PassKind::Scene, PassKind::Composite, PassKind::Ui]);
    let ends = commands.iter().filter(|c| **c == Command::EndRenderPass).count();
    assert_eq!(ends, 3);
    assert_eq!(g.state(), FrameState::Idle);

    let color = g.ctx.find_texture_view(WORLD_COLOR_VIEW).unwrap();
    let depth = g.ctx.find_texture_view(WORLD_DEPTH_VIEW).unwrap();
    let model = &world.models[0];
    let expected = vec![
        Command::BeginRenderPass {
            pass: PassKind::Scene,
            color: Attachment::View(color),
            depth: Some(depth),
            load: LoadOp::Clear(Color { r: 0, g: 0, b: 0, a: 1000 }),
        },
        Command::SetBindGroup { index: 0, bind_group: camera.bind_group() },
        Command::SetPipeline { pipeline: model.pipeline },
        Command::SetBindGroup { index: 1, bind_group: model.bind_group },
        Command::SetVertexBuffer { slot: 0, buffer: model.meshes[0].vertex_buffer },
        Command::SetIndexBuffer { buffer: model.meshes[0].index_buffer, format: IndexFormat::Uint16 },
        Command::DrawIndexed { index_count: 6 },
        Command::EndRenderPass,
        Command::BeginRenderPass {
            pass: PassKind::Composite,
            color: Attachment::Surface { width: 800, height: 600 },
            depth: None,
            load: LoadOp::Clear(Color { r: 100, g: 200, b: 300, a: 1000 }),
        },
        Command::SetPipeline { pipeline: g.ctx.find_render_pipeline(QUAD_PIPELINE).unwrap() },
        Command::SetBindGroup {
            index: 0,
            bind_group: g.ctx.find_bind_group(WORLD_TEXTURE_BIND_GROUP).unwrap(),
        },
        Command::SetVertexBuffer { slot: 0, buffer: g.ctx.find_buffer(QUAD_VERTEX_BUFFER).unwrap() },
        Command::SetIndexBuffer {
            buffer: g.ctx.find_buffer(QUAD_INDEX_BUFFER).unwrap(),
            format: IndexFormat::Uint16,
        },
        Command::DrawIndexed { index_count: 6 },
        Command::EndRenderPass,
        Command::UpdateUiBuffers { width: 800, height: 600 },
        Command::BeginRenderPass {
            pass: PassKind::Ui,
            color: Attachment::Surface { width: 800, height: 600 },
            depth: None,
            load: LoadOp::Load,
        },
        Command::RenderUi,
        Command::EndRenderPass,
    ];
    assert_eq!(commands, expected);
}

#[test]
fn frames_follow_one_another() {
    let (mut g, world, camera) = scene();
    for _ in 0..3 {
        let outcome = g.render(&world, &camera, SurfaceStatus::Acquired, &no_textures());
        assert!(matches!(outcome, Ok(FrameOutcome::Presented { .. })));
        assert_eq!(g.state(), FrameState::Idle);
    }
}

#[test]
fn resize_to_zero_leaves_the_configuration_as_it_was() {
    let mut g = graphics();
    let before = g.ctx.surface_config;
    assert!(!g.resize(&PhysicalSize { width: 0, height: 0 }));
    assert_eq!(g.ctx.surface_config, before);
    assert_eq!(g.pending_resize, None);
    assert_eq!((g.ctx.surface_config.width, g.ctx.surface_config.height), (800, 600));
}

#[test]
fn composite_pass_draws_onto_the_resized_surface() {
    let (mut g, world, camera) = scene();
    assert!(g.resize(&PhysicalSize { width: 1024, height: 768 }));
    assert_eq!((g.ctx.surface_config.width, g.ctx.surface_config.height), (1024, 768));
    g.surface_configured();
    let outcome = g.render(&world, &camera, SurfaceStatus::Acquired, &no_textures()).unwrap();
    let commands = match outcome {
        FrameOutcome::Presented { commands } => commands,
        other => panic!("{:?}", other),
    };
    let surfaces: Vec<(PassKind, Attachment)> = commands
        .iter()
        .filter_map(|c| match c {
            Command::BeginRenderPass { pass, color, .. } => Some((*pass, *color)),
            _ => None,
        })
        .collect();
    assert_eq!(surfaces[1], (PassKind::Composite, Attachment::Surface { width: 1024, height: 768 }));
    assert_eq!(surfaces[2], (PassKind::Ui, Attachment::Surface { width: 1024, height: 768 }));
    // The offscreen targets keep their own extent.
    assert_eq!(g.ctx.get_texture(WORLD_COLOR_TEXTURE).size.width, 1600);
    assert_eq!(g.ctx.get_texture(WORLD_DEPTH_TEXTURE).size.height, 1200);
}

#[test]
fn a_frame_without_an_image_is_skipped() {
    let (mut g, world, camera) = scene();
    for (status, reconfigure) in [
        (SurfaceStatus::Outdated, true),
        (SurfaceStatus::Lost, true),
        (SurfaceStatus::Timeout, false),
    ] {
        match g.render(&world, &camera, status, &no_textures()) {
            Ok(FrameOutcome::Skipped { reconfigure: r }) => assert_eq!(r, reconfigure),
            other => panic!("{:?}", other),
        }
        assert_eq!(g.state(), FrameState::Idle);
        assert!(g.encoder.commands.is_empty());
        // The surface counts as stale until it has been configured anew.
        assert_eq!(g.surface_stale, reconfigure);
        if reconfigure {
            assert!(matches!(
                g.render(&world, &camera, SurfaceStatus::Acquired, &no_textures()),
                Ok(FrameOutcome::Skipped { reconfigure: true })
            ));
            g.surface_configured();
        }
    }
    assert!(matches!(
        g.render(&world, &camera, SurfaceStatus::OutOfMemory, &no_textures()),
        Err(FrameError::OutOfMemory)
    ));
    assert_eq!(g.state(), FrameState::Idle);
    // The next frame is none the worse for it.
    assert!(matches!(
        g.render(&world, &camera, SurfaceStatus::Acquired, &no_textures()),
        Ok(FrameOutcome::Presented { .. })
    ));
}

#[test]
fn steps_are_taken_in_their_order_only() {
    let (mut g, world, camera) = scene();
    assert!(matches!(g.record_scene(&world, &camera), Err(FrameError::OutOfOrder(FrameState::Idle))));
    assert!(matches!(
        g.record_composite(SurfaceStatus::Acquired),
        Err(FrameError::OutOfOrder(FrameState::Idle))
    ));
    assert!(matches!(g.record_ui(&no_textures()), Err(FrameError::OutOfOrder(FrameState::Idle))));
    assert!(matches!(g.submit(), Err(FrameError::OutOfOrder(FrameState::Idle))));
    assert!(matches!(g.present(), Err(FrameError::OutOfOrder(FrameState::Idle))));
    assert!(matches!(g.end_frame(), Err(FrameError::OutOfOrder(FrameState::Idle))));

    assert!(matches!(g.begin_frame(), Ok(false)));
    assert_eq!(g.state(), FrameState::EncoderOpen);
    assert!(matches!(g.begin_frame(), Err(FrameError::OutOfOrder(FrameState::EncoderOpen))));
    assert!(matches!(
        g.record_composite(SurfaceStatus::Acquired),
        Err(FrameError::OutOfOrder(FrameState::EncoderOpen))
    ));
    assert!(matches!(
        g.render(&world, &camera, SurfaceStatus::Acquired, &no_textures()),
        Err(FrameError::OutOfOrder(FrameState::EncoderOpen))
    ));
    assert_eq!(g.state(), FrameState::EncoderOpen);

    g.record_scene(&world, &camera).unwrap();
    assert_eq!(g.state(), FrameState::ScenePassDone);
    assert_eq!(g.encoder.commands.len(), 8);
    assert!(matches!(g.record_ui(&no_textures()), Err(FrameError::OutOfOrder(FrameState::ScenePassDone))));
    assert_eq!(g.record_composite(SurfaceStatus::Acquired).unwrap(), Acquisition::Recorded);
    assert_eq!(g.state(), FrameState::CompositePassDone);
    assert_eq!(g.encoder.commands.len(), 15);
    assert!(matches!(g.submit(), Err(FrameError::OutOfOrder(FrameState::CompositePassDone))));
    g.record_ui(&no_textures()).unwrap();
    assert_eq!(g.state(), FrameState::UiPassDone);
    assert!(matches!(g.present(), Err(FrameError::OutOfOrder(FrameState::UiPassDone))));
    let commands = g.submit().unwrap();
    assert_eq!(commands.len(), 19);
    assert_eq!(g.state(), FrameState::Submitted);
    assert!(g.encoder.commands.is_empty());
    assert!(matches!(g.end_frame(), Err(FrameError::OutOfOrder(FrameState::Submitted))));
    g.present().unwrap();
    assert_eq!(g.state(), FrameState::Presented);
    assert!(matches!(g.begin_frame(), Err(FrameError::OutOfOrder(FrameState::Presented))));
    g.end_frame().unwrap();
    assert_eq!(g.state(), FrameState::Idle);
}

#[test]
fn state_cycle_has_seven_steps() {
    let mut s = FrameState::Idle;
    let mut seen = vec![];
    for _ in 0..7 {
        s = s.next();
        seen.push(s);
    }
    assert_eq!(
        seen,
        vec![
            FrameState::EncoderOpen,
            FrameState::ScenePassDone,
            FrameState::CompositePassDone,
            FrameState::UiPassDone,
            FrameState::Submitted,
            FrameState::Presented,
            FrameState::Idle,
        ]
    );
}

#[test]
fn a_resize_during_a_frame_waits_for_the_next() {
    let (mut g, world, camera) = scene();
    g.begin_frame().unwrap();
    assert!(!g.resize(&PhysicalSize { width: 1024, height: 768 }));
    assert_eq!((g.ctx.surface_config.width, g.ctx.surface_config.height), (800, 600));
    assert_eq!(g.pending_resize, Some(PhysicalSize { width: 1024, height: 768 }));
    assert!(!g.resize(&PhysicalSize { width: 0, height: 768 }));
    assert_eq!(g.pending_resize, Some(PhysicalSize { width: 1024, height: 768 }));
    g.record_scene(&world, &camera).unwrap();
    g.record_composite(SurfaceStatus::Acquired).unwrap();
    g.record_ui(&no_textures()).unwrap();
    let commands = g.submit().unwrap();
    assert!(commands.contains(&Command::BeginRenderPass {
        pass: PassKind::Composite,
        color: Attachment::Surface { width: 800, height: 600 },
        depth: None,
        load: LoadOp::Clear(Color { r: 100, g: 200, b: 300, a: 1000 }),
    }));
    g.present().unwrap();
    g.end_frame().unwrap();
    assert!(!g.surface_stale);
    assert!(matches!(g.begin_frame(), Ok(true)));
    assert_eq!((g.ctx.surface_config.width, g.ctx.surface_config.height), (1024, 768));
    assert_eq!(g.pending_resize, None);
    assert!(g.surface_stale);
}

#[test]
fn a_frame_that_finds_a_resize_put_off_is_skipped_for_it() {
    let (mut g, world, camera) = scene();
    g.pending_resize = Some(PhysicalSize { width: 320, height: 200 });
    assert!(matches!(
        g.render(&world, &camera, SurfaceStatus::Acquired, &no_textures()),
        Ok(FrameOutcome::Skipped { reconfigure: true })
    ));
    assert_eq!((g.ctx.surface_config.width, g.ctx.surface_config.height), (320, 200));
    assert_eq!(g.state(), FrameState::Idle);
    assert!(g.surface_stale);
    g.surface_configured();
    assert!(matches!(
        g.render(&world, &camera, SurfaceStatus::Acquired, &no_textures()),
        Ok(FrameOutcome::Presented { .. })
    ));
}

#[test]
fn no_frame_is_presented_before_the_surface_is_configured() {
    let (mut g, world, camera) = scene();
    assert!(g.resize(&PhysicalSize { width: 1024, height: 768 }));
    assert!(g.surface_stale);
    for _ in 0..2 {
        assert!(matches!(
            g.render(&world, &camera, SurfaceStatus::Acquired, &no_textures()),
            Ok(FrameOutcome::Skipped { reconfigure: true })
        ));
        assert_eq!(g.state(), FrameState::Idle);
    }
    // Step by step, the composite pass is where the frame stops.
    assert!(matches!(g.begin_frame(), Ok(true)));
    g.record_scene(&world, &camera).unwrap();
    assert_eq!(
        g.record_composite(SurfaceStatus::Acquired).unwrap(),
        Acquisition::Skipped { reconfigure: true }
    );
    assert_eq!(g.state(), FrameState::Idle);
    assert!(g.encoder.commands.is_empty());
    // A resize to nothing does not make the surface stale.
    g.surface_configured();
    assert!(!g.resize(&PhysicalSize { width: 0, height: 0 }));
    assert!(!g.surface_stale);
    assert!(matches!(
        g.render(&world, &camera, SurfaceStatus::Acquired, &no_textures()),
        Ok(FrameOutcome::Presented { .. })
    ));
}

#[test]
fn a_frame_names_the_first_label_it_misses() {
    let mut ctx = Context::new(PhysicalSize { width: 800, height: 600 }, &caps()).unwrap();
    let camera = CameraBuilder::new().build(&mut ctx, &identity()).unwrap();
    let e = resolve(&ctx).unwrap_err();
    assert_eq!(e.label, WORLD_COLOR_VIEW);
    assert_eq!(e.category, Category::TextureView);
    assert_eq!(e.message(), "Failed to get world_color_texture_view from ctx.texture_views!");
    let mut g = Graphics {
        ctx,
        renderer: Renderer {},
        gui: Gui::new(TextureFormat::Bgra8UnormSrgb, None),
        state: FrameState::Idle,
        encoder: CommandEncoder::new("command_encoder"),
        pending_resize: None,
        surface_stale: false,
    };
    let world = World { models: vec![] };
    match g.render(&world, &camera, SurfaceStatus::Acquired, &no_textures()) {
        Err(FrameError::Missing(e)) => {
            assert_eq!(e.label, WORLD_COLOR_VIEW);
            assert_eq!(e.category, Category::TextureView);
        }
        other => panic!("{:?}", other),
    }
    assert_eq!(g.state(), FrameState::Idle);
    let size = Extent3d { width: 1, height: 1, depth_or_array_layers: 1 };
    let usage = render_core::resource::TextureUsages::render_attachment();
    let t = g
        .ctx
        .create_texture("t", size, 1, 1, TextureDimension::D2, TextureFormat::Rgba32Float, usage)
        .unwrap();
    g.ctx.create_texture_view(t, WORLD_COLOR_VIEW).unwrap();
    g.ctx.create_texture_view(t, WORLD_DEPTH_VIEW).unwrap();
    match g.render(&world, &camera, SurfaceStatus::Acquired, &no_textures()) {
        Err(FrameError::Missing(e)) => {
            assert_eq!(e.label, QUAD_PIPELINE);
            assert_eq!(e.category, Category::RenderPipeline);
        }
        other => panic!("{:?}", other),
    }
    // Taken step by step, the scene pass is recorded before the quad is missed.
    g.begin_frame().unwrap();
    g.record_scene(&world, &camera).unwrap();
    match g.record_composite(SurfaceStatus::Acquired) {
        Err(FrameError::Missing(e)) => assert_eq!(e.label, QUAD_PIPELINE),
        other => panic!("{:?}", other),
    }
    assert_eq!(g.state(), FrameState::Idle);
    assert!(g.encoder.commands.is_empty());
}

#[test]
fn a_scene_that_names_what_is_not_there_is_not_recorded() {
    let (mut g, mut world, camera) = scene();
    world.models[0].meshes.push(Mesh { vertex_buffer: 0, index_buffer: 99, num_elements: 3 });
    assert!(matches!(
        g.render(&world, &camera, SurfaceStatus::Acquired, &no_textures()),
        Err(FrameError::Registry(ContextError::UnknownHandle(Category::Buffer, 99)))
    ));
    assert_eq!(g.state(), FrameState::Idle);
    world.models[0].pipeline = 50;
    assert!(matches!(
        g.render(&world, &camera, SurfaceStatus::Acquired, &no_textures()),
        Err(FrameError::Registry(ContextError::UnknownHandle(Category::RenderPipeline, 50)))
    ));
    let renderer = Renderer::new(&g.ctx);
    let mut encoder = g.ctx.create_encoder("e");
    assert_eq!(
        renderer.render(&g.ctx, &world, &camera, &mut encoder, 7, 0),
        Err(ContextError::UnknownHandle(Category::TextureView, 7))
    );
    assert_eq!(
        renderer.render(&g.ctx, &world, &camera, &mut encoder, 0, 8),
        Err(ContextError::UnknownHandle(Category::TextureView, 8))
    );
    assert!(encoder.commands.is_empty());
}

#[test]
fn models_are_drawn_one_after_the_other() {
    let (g, mut world, camera) = scene();
    let first = &world.models[0];
    let second = Model {
        transform: Transform::default(),
        meshes: vec![
            Mesh { vertex_buffer: 0, index_buffer: 1, num_elements: 6 },
            Mesh { vertex_buffer: 1, index_buffer: 0, num_elements: 3 },
        ],
        bind_group_layout: first.bind_group_layout,
        bind_group: first.bind_group,
        pipeline: 0,
        transform_buffer: first.transform_buffer,
    };
    world.models.push(second);
    world.models.push(Model {
        transform: Transform::default(),
        meshes: vec![],
        bind_group_layout: 0,
        bind_group: 0,
        pipeline: 1,
        transform_buffer: 0,
    });
    let renderer = Renderer::new(&g.ctx);
    let mut encoder = g.ctx.create_encoder("e");
    encoder.push(Command::EndRenderPass);
    renderer.render(&g.ctx, &world, &camera, &mut encoder, 0, 1).unwrap();
    let c = encoder.finish();
    assert_eq!(c.len(), 1 + 2 + (2 + 3) + (2 + 6) + 2 + 1);
    assert_eq!(c[0], Command::EndRenderPass);
    assert_eq!(c[8], Command::SetPipeline { pipeline: 0 });
    assert_eq!(c[10], Command::SetVertexBuffer { slot: 0, buffer: 0 });
    assert_eq!(c[12], Command::DrawIndexed { index_count: 6 });
    assert_eq!(c[13], Command::SetVertexBuffer { slot: 0, buffer: 1 });
    assert_eq!(c[15], Command::DrawIndexed { index_count: 3 });
    assert_eq!(c[16], Command::SetPipeline { pipeline: 1 });
    assert_eq!(c[17], Command::SetBindGroup { index: 1, bind_group: 0 });
    assert_eq!(c[18], Command::EndRenderPass);
}

#[test]
fn ui_textures_are_uploaded_before_and_freed_after_the_rendering() {
    let gui = Gui::new(TextureFormat::Bgra8UnormSrgb, None);
    let mut encoder = CommandEncoder::new("e");
    let textures = TexturesDelta {
        set: vec![TextureId::Managed(1), TextureId::User(2)],
        free: vec![TextureId::Managed(0), TextureId::Managed(1)],
    };
    gui.draw(&mut encoder, PhysicalSize { width: 640, height: 480 }, &textures);
    assert_eq!(
        encoder.finish(),
        vec![
            Command::UpdateUiTexture { id: TextureId::Managed(1) },
            Command::UpdateUiTexture { id: TextureId::User(2) },
            Command::UpdateUiBuffers { width: 640, height: 480 },
            Command::BeginRenderPass {
                pass: PassKind::Ui,
                color: Attachment::Surface { width: 640, height: 480 },
                depth: None,
                load: LoadOp::Load,
            },
            Command::RenderUi,
            Command::EndRenderPass,
            Command::FreeUiTexture { id: TextureId::Managed(0) },
            Command::FreeUiTexture { id: TextureId::Managed(1) },
        ]
    );
}

#[test]
fn a_frame_carries_the_textures_of_the_user_interface() {
    let (mut g, world, camera) = scene();
    let textures = TexturesDelta { set: vec![TextureId::Managed(0)], free: vec![TextureId::User(9)] };
    let commands = match g.render(&world, &camera, SurfaceStatus::Acquired, &textures).unwrap() {
        FrameOutcome::Presented { commands } => commands,
        other => panic!("{:?}", other),
    };
    assert_eq!(commands.len(), 21);
    assert_eq!(commands[15], Command::UpdateUiTexture { id: TextureId::Managed(0) });
    assert_eq!(commands[18], Command::RenderUi);
    assert_eq!(commands[20], Command::FreeUiTexture { id: TextureId::User(9) });
}
