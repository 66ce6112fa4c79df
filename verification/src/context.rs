use crate::encoder::CommandEncoder;
use crate::registry::{
    grown_by, has_label, index_of, labels_unique, Category, LookupError, ResourceMap,
};
use crate::resource::{
    AddressMode, BindingResource, BindingType, BufferUsages, ColorTargetState,
    CompositeAlphaMode, DepthStencilState, Extent3d, Face, FilterMode, FrontFace, PhysicalSize,
    PolygonMode, PresentMode, PrimitiveTopology, ShaderStages, TextureDimension, TextureFormat,
    TextureUsages,
};
use crate::vertex_input::VertexBufferLayout;
use vstd::pervasive::unreached;
use vstd::prelude::*;
use vstd::slice::slice_to_vec;

verus! {

/// Something whose copy on the device may lag behind the host's.
pub trait State {
    spec fn stale(&self) -> bool;

    fn needs_update(&self) -> (r: bool)
        ensures
            r == self.stale(),
    ;
}

/// A buffer: its contents and what it may be used for.
#[derive(Debug)]
pub struct Buffer {
    pub data: Vec<u8>,
    pub usage: BufferUsages,
    pub needs_update: bool,
}

impl Buffer {
    pub fn new(data: &[u8], usage: BufferUsages) -> (r: Self)
        ensures
            r.data@ == data@,
            r.usage == usage,
            !r.needs_update,
    {
        Buffer { data: slice_to_vec(data), usage, needs_update: false }
    }
}

impl State for Buffer {
    open spec fn stale(&self) -> bool {
        self.needs_update
    }

    fn needs_update(&self) -> (r: bool) {
        self.needs_update
    }
}

/// A texture: its extent, its levels and samples, its format and what it
/// may be used for.
#[derive(Clone, Copy, Debug, PartialEq, Eq, Structural)]
pub struct Texture {
    pub size: Extent3d,
    pub mip_level_count: u32,
    pub sample_count: u32,
    pub dimension: TextureDimension,
    pub format: TextureFormat,
    pub usage: TextureUsages,
}

impl Texture {
    pub fn new(
        size: Extent3d,
        mip_level_count: u32,
        sample_count: u32,
        dimension: TextureDimension,
        format: TextureFormat,
        usage: TextureUsages,
    ) -> (r: Self)
        ensures
            r == (Texture { size, mip_level_count, sample_count, dimension, format, usage }),
    {
        Texture { size, mip_level_count, sample_count, dimension, format, usage }
    }
}

/// A view of the whole of one texture, named by the texture's handle.
#[derive(Clone, Copy, Debug, PartialEq, Eq, Structural)]
pub struct TextureView {
    pub texture: usize,
}

impl TextureView {
    pub fn new(texture: usize) -> (r: Self)
        ensures
            r.texture == texture,
    {
        TextureView { texture }
    }
}

/// A sampler: how it addresses beyond the edge, and how it filters.
#[derive(Clone, Copy, Debug, PartialEq, Eq, Structural)]
pub struct Sampler {
    pub address_mode_u: AddressMode,
    pub address_mode_v: AddressMode,
    pub address_mode_w: AddressMode,
    pub min_filter: FilterMode,
    pub mag_filter: FilterMode,
    pub mipmap_filter: FilterMode,
}

impl Sampler {
    pub fn new(
        address_mode_u: AddressMode,
        address_mode_v: AddressMode,
        address_mode_w: AddressMode,
        min_filter: FilterMode,
        mag_filter: FilterMode,
        mipmap_filter: FilterMode,
    ) -> (r: Self)
        ensures
            r == (Sampler {
                address_mode_u,
                address_mode_v,
                address_mode_w,
                min_filter,
                mag_filter,
                mipmap_filter,
            }),
    {
        Sampler {
            address_mode_u,
            address_mode_v,
            address_mode_w,
            min_filter,
            mag_filter,
            mipmap_filter,
        }
    }
}

/// One slot of a layout: its number, who sees it, and what it accepts.
#[derive(Clone, Copy, Debug, PartialEq, Eq, Structural)]
pub struct BindGroupLayoutEntry {
    pub binding: u32,
    pub visibility: ShaderStages,
    pub ty: BindingType,
}

/// Whether no slot number occurs twice.
pub open spec fn slots_distinct(entries: Seq<BindGroupLayoutEntry>) -> bool {
    forall|i: int, j: int|
        0 <= i < j < entries.len() ==> (#[trigger] entries[i]).binding != (
        #[trigger] entries[j]).binding
}

/// Whether position `j` is the second of two entries with one slot number,
/// and the first position of which that is true.
pub open spec fn first_repeat(entries: Seq<BindGroupLayoutEntry>, j: int) -> bool {
    &&& 0 <= j < entries.len()
    &&& exists|i: int| 0 <= i < j && (#[trigger] entries[i]).binding == entries[j].binding
    &&& slots_distinct(entries.subrange(0, j))
}

/// The slots of a binding group, in order; no two have the same number.
#[derive(Debug)]
pub struct BindGroupLayout {
    pub entries: Vec<BindGroupLayoutEntry>,
}

impl BindGroupLayout {
    /// Makes a layout of `entries`. A slot number that occurs twice is
    /// refused: the answer is then the position of its second occurrence.
    pub fn new(entries: Vec<BindGroupLayoutEntry>) -> (r: Result<Self, usize>)
        ensures
            r is Ok <==> slots_distinct(entries@),
            r matches Ok(layout) ==> layout.entries@ == entries@,
            r matches Err(j) ==> first_repeat(entries@, j as int),
    {
        let mut j: usize = 0;
        while j < entries.len()
            invariant
                j <= entries@.len(),
                slots_distinct(entries@.subrange(0, j as int)),
            decreases entries@.len() - j,
        {
            let mut i: usize = 0;
            while i < j
                invariant
                    i <= j < entries@.len(),
                    slots_distinct(entries@.subrange(0, j as int)),
                    forall|k: int|
                        0 <= k < i ==> (#[trigger] entries@[k]).binding
                            != entries@[j as int].binding,
                decreases j - i,
            {
                if entries[i].binding == entries[j].binding {
                    proof {
                        let k = i as int;
                        assert(0 <= k < j && entries@[k].binding == entries@[j as int].binding);
                    }
                    return Err(j);
                }
                i += 1;
            }
            proof {
                let shorter = entries@.subrange(0, j as int);
                let longer = entries@.subrange(0, j + 1);
                assert forall|a: int, b: int| 0 <= a < b < longer.len() implies (
                #[trigger] longer[a]).binding != (#[trigger] longer[b]).binding by {
                    if b < j {
                        assert(shorter[a].binding != shorter[b].binding);
                    } else {
                        assert(entries@[a].binding != entries@[j as int].binding);
                    }
                }
            }
            j += 1;
        }
        assert(entries@.subrange(0, j as int) =~= entries@);
        Ok(BindGroupLayout { entries })
    }
}

/// One bound resource and the slot it goes to.
#[derive(Clone, Copy, Debug, PartialEq, Eq, Structural)]
pub struct BindGroupEntry {
    pub binding: u32,
    pub resource: BindingResource,
}

/// Whether the entry fits the slot: the same slot number, and a resource of
/// the kind that the slot accepts.
pub open spec fn entry_fits(slot: BindGroupLayoutEntry, entry: BindGroupEntry) -> bool {
    slot.binding == entry.binding && slot.ty.kind_spec() == entry.resource.kind_spec()
}

/// Resources bound to the slots of a layout, which is named by its handle.
#[derive(Debug)]
pub struct BindGroup {
    pub layout: usize,
    pub entries: Vec<BindGroupEntry>,
}

impl BindGroup {
    pub fn new(layout: usize, entries: Vec<BindGroupEntry>) -> (r: Self)
        ensures
            r.layout == layout,
            r.entries@ == entries@,
    {
        BindGroup { layout, entries }
    }
}

/// A shader program, named by the path of its source text. Its vertex stage
/// starts at `vs_main`, its fragment stage at `fs_main`.
#[derive(Debug)]
pub struct Shader {
    pub code_path: String,
}

impl Shader {
    pub fn new(code_path: &str) -> (r: Self)
        ensures
            r.code_path@ == code_path@,
    {
        Shader { code_path: String::from_str(code_path) }
    }

    pub fn vertex_entry_point() -> (r: &'static str)
        ensures
            r@ == "vs_main"@,
    {
        "vs_main"
    }

    pub fn fragment_entry_point() -> (r: &'static str)
        ensures
            r@ == "fs_main"@,
    {
        "fs_main"
    }
}

/// A pipeline state object. Beside what is held here, every pipeline culls
/// back faces, takes counter-clockwise triangles as front-facing and draws
/// one sample per pixel.
#[derive(Debug)]
pub struct RenderPipeline {
    pub layout: Vec<usize>,
    pub shader: usize,
    pub buffers: Vec<VertexBufferLayout>,
    pub color_target: Option<ColorTargetState>,
    pub depth_stencil: Option<DepthStencilState>,
    pub topology: PrimitiveTopology,
    pub polygon_mode: PolygonMode,
}

impl RenderPipeline {
    pub fn new(
        layout: Vec<usize>,
        shader: usize,
        buffers: Vec<VertexBufferLayout>,
        color_target_state: Option<ColorTargetState>,
        depth_target_state: Option<DepthStencilState>,
        topology: PrimitiveTopology,
        polygon_mode: PolygonMode,
    ) -> (r: Self)
        ensures
            r.layout@ == layout@,
            r.shader == shader,
            r.buffers@ == buffers@,
            r.color_target == color_target_state,
            r.depth_stencil == depth_target_state,
            r.topology == topology,
            r.polygon_mode == polygon_mode,
    {
        RenderPipeline {
            layout,
            shader,
            buffers,
            color_target: color_target_state,
            depth_stencil: depth_target_state,
            topology,
            polygon_mode,
        }
    }

    pub fn front_face(&self) -> (r: FrontFace)
        ensures
            r == FrontFace::Ccw,
    {
        FrontFace::Ccw
    }

    pub fn cull_mode(&self) -> (r: Option<Face>)
        ensures
            r == Some(Face::Back),
    {
        Some(Face::Back)
    }

    pub fn sample_count(&self) -> (r: u32)
        ensures
            r == 1,
    {
        1
    }
}

/// Any one resource, tagged with its kind.
pub enum Renderables {
    Buffer(Buffer),
    Texture(Texture),
    TextureView(TextureView),
    Sampler(Sampler),
    BindGroupLayout(BindGroupLayout),
    BindGroup(BindGroup),
    Shader(Shader),
    RenderPipeline(RenderPipeline),
}

impl Renderables {
    /// The store that this resource belongs to.
    pub open spec fn category_spec(&self) -> Category {
        match self {
            Renderables::Buffer(_) => Category::Buffer,
            Renderables::Texture(_) => Category::Texture,
            Renderables::TextureView(_) => Category::TextureView,
            Renderables::Sampler(_) => Category::Sampler,
            Renderables::BindGroupLayout(_) => Category::BindGroupLayout,
            Renderables::BindGroup(_) => Category::BindGroup,
            Renderables::Shader(_) => Category::Shader,
            Renderables::RenderPipeline(_) => Category::RenderPipeline,
        }
    }

    /// The store that this resource belongs to.
    pub fn category(&self) -> (r: Category)
        ensures
            r == self.category_spec(),
    {
        match self {
            Renderables::Buffer(_) => Category::Buffer,
            Renderables::Texture(_) => Category::Texture,
            Renderables::TextureView(_) => Category::TextureView,
            Renderables::Sampler(_) => Category::Sampler,
            Renderables::BindGroupLayout(_) => Category::BindGroupLayout,
            Renderables::BindGroup(_) => Category::BindGroup,
            Renderables::Shader(_) => Category::Shader,
            Renderables::RenderPipeline(_) => Category::RenderPipeline,
        }
    }
}

/// Why a resource could not be created or written.
#[derive(Clone, Copy, Debug, PartialEq, Eq, Structural)]
pub enum ContextError {
    /// The label is already held in the store of this kind.
    DuplicateLabel(Category),
    /// No resource of this kind is behind this handle.
    UnknownHandle(Category, usize),
    /// The entry at this position repeats the slot number of an earlier one.
    DuplicateBinding(usize),
    /// The layout has `expected` slots, and `found` entries were given.
    EntryCount { expected: usize, found: usize },
    /// The entry at this position does not fit the slot at the same position.
    BindingMismatch(usize),
    /// The write would end beyond the end of the buffer.
    OutOfRange,
    /// The buffer was not created as the destination of copies.
    NotCopyDst,
}

/// Why a step that reads and fills the registry failed.
#[derive(Debug)]
pub enum RenderError {
    /// A label that was looked up is not in its store.
    Missing(LookupError),
    /// The registry refused to create or to write.
    Registry(ContextError),
}

/// What the surface can do with the chosen adapter.
#[derive(Debug)]
pub struct SurfaceCapabilities {
    pub formats: Vec<TextureFormat>,
    pub present_modes: Vec<PresentMode>,
    pub alpha_modes: Vec<CompositeAlphaMode>,
}

/// How the surface is configured.
#[derive(Clone, Copy, Debug, PartialEq, Eq, Structural)]
pub struct SurfaceConfiguration {
    pub format: TextureFormat,
    pub width: u32,
    pub height: u32,
    pub present_mode: PresentMode,
    pub alpha_mode: CompositeAlphaMode,
}

/// Why no context could be made.
#[derive(Clone, Copy, Debug, PartialEq, Eq, Structural)]
pub enum StartupError {
    NoSurfaceFormat,
    NoPresentMode,
    NoAlphaMode,
    ZeroSize,
}

/// Whether `format` is the one to configure the surface with: the first sRGB
/// format on offer, or the first format of all where none is sRGB.
pub open spec fn is_preferred(formats: Seq<TextureFormat>, format: TextureFormat) -> bool {
    ||| exists|i: int|
        0 <= i < formats.len() && (#[trigger] formats[i]) == format && format.srgb() && forall|
            j: int,
        | 0 <= j < i ==> !(#[trigger] formats[j]).srgb()
    ||| formats.len() > 0 && format == formats[0] && forall|j: int|
        0 <= j < formats.len() ==> !(#[trigger] formats[j]).srgb()
}

/// Picks the format to configure the surface with.
pub fn choose_format(formats: &Vec<TextureFormat>) -> (r: Option<TextureFormat>)
    ensures
        r is Some <==> formats@.len() > 0,
        r matches Some(format) ==> is_preferred(formats@, format),
{
    if formats.len() == 0 {
        return None;
    }
    let mut i: usize = 0;
    while i < formats.len()
        invariant
            i <= formats@.len(),
            forall|j: int| 0 <= j < i ==> !(#[trigger] formats@[j]).srgb(),
        decreases formats@.len() - i,
    {
        if formats[i].is_srgb() {
            proof {
                let k = i as int;
                assert(0 <= k < formats@.len() && formats@[k] == formats@[i as int]);
            }
            return Some(formats[i]);
        }
        i += 1;
    }
    Some(formats[0])
}

/// The configuration after the window has taken the size `size`: a size
/// with a zero in it changes nothing, any other becomes the extent.
pub open spec fn resized(config: SurfaceConfiguration, size: PhysicalSize) -> SurfaceConfiguration {
    if size.width != 0 && size.height != 0 {
        SurfaceConfiguration { width: size.width, height: size.height, ..config }
    } else {
        config
    }
}

/// The configuration after the window has taken the sizes `sizes`, one
/// after the other.
pub open spec fn resized_through(
    config: SurfaceConfiguration,
    sizes: Seq<PhysicalSize>,
) -> SurfaceConfiguration
    decreases sizes.len(),
{
    if sizes.len() == 0 {
        config
    } else {
        resized(resized_through(config, sizes.drop_last()), sizes.last())
    }
}

/// After any sequence of resizes the extent is the last size that had no
/// zero in it: where the last size of all has none, the extent is exactly
/// that size. Format, present mode and alpha mode are never touched, and
/// an extent without a zero never gets one.
pub proof fn lemma_resize_sequence(config: SurfaceConfiguration, sizes: Seq<PhysicalSize>)
    ensures
        sizes.len() > 0 && sizes.last().width != 0 && sizes.last().height != 0 ==> {
            &&& resized_through(config, sizes).width == sizes.last().width
            &&& resized_through(config, sizes).height == sizes.last().height
        },
        sizes.len() > 0 && (sizes.last().width == 0 || sizes.last().height == 0)
            ==> resized_through(config, sizes) == resized_through(config, sizes.drop_last()),
        resized_through(config, sizes).format == config.format,
        resized_through(config, sizes).present_mode == config.present_mode,
        resized_through(config, sizes).alpha_mode == config.alpha_mode,
        config.width > 0 && config.height > 0 ==> resized_through(config, sizes).width > 0
            && resized_through(config, sizes).height > 0,
    decreases sizes.len(),
{
    if sizes.len() > 0 {
        lemma_resize_sequence(config, sizes.drop_last());
    }
}

/// What stands in the way of a context for this size and these capabilities.
pub open spec fn startup_error(size: PhysicalSize, caps: SurfaceCapabilities) -> Option<
    StartupError,
> {
    if caps.formats@.len() == 0 {
        Some(StartupError::NoSurfaceFormat)
    } else if caps.present_modes@.len() == 0 {
        Some(StartupError::NoPresentMode)
    } else if caps.alpha_modes@.len() == 0 {
        Some(StartupError::NoAlphaMode)
    } else if size.width == 0 || size.height == 0 {
        Some(StartupError::ZeroSize)
    } else {
        None
    }
}

/// The device context and the registry of named resources: the surface's
/// configuration, and one store for each kind of resource.
pub struct Context {
    pub surface_config: SurfaceConfiguration,
    pub buffers: ResourceMap<Buffer>,
    pub textures: ResourceMap<Texture>,
    pub texture_views: ResourceMap<TextureView>,
    pub samplers: ResourceMap<Sampler>,
    pub bind_group_layouts: ResourceMap<BindGroupLayout>,
    pub bind_groups: ResourceMap<BindGroup>,
    pub shaders: ResourceMap<Shader>,
    pub render_pipelines: ResourceMap<RenderPipeline>,
}

impl Context {
    /// Whether every store of `self` but, at most, that of `category` holds
    /// what it holds in `before`.
    pub open spec fn same_stores_but(&self, before: &Context, category: Category) -> bool {
        &&& (category != Category::Buffer ==> self.buffers@ == before.buffers@)
        &&& (category != Category::Shader ==> self.shaders@ == before.shaders@)
        &&& (category != Category::Texture ==> self.textures@ == before.textures@)
        &&& (category != Category::TextureView ==> self.texture_views@ == before.texture_views@)
        &&& (category != Category::Sampler ==> self.samplers@ == before.samplers@)
        &&& (category != Category::BindGroupLayout ==> self.bind_group_layouts@
            == before.bind_group_layouts@)
        &&& (category != Category::BindGroup ==> self.bind_groups@ == before.bind_groups@)
        &&& (category != Category::RenderPipeline ==> self.render_pipelines@
            == before.render_pipelines@)
    }

    /// Whether nothing differs between `self` and `before` but, at most, the
    /// store of `category`.
    pub open spec fn same_but(&self, before: &Context, category: Category) -> bool {
        self.surface_config == before.surface_config && self.same_stores_but(before, category)
    }

    /// Whether every store of `self` holds what it holds in `before`.
    pub open spec fn same_registry(&self, before: &Context) -> bool {
        &&& self.buffers@ == before.buffers@
        &&& self.shaders@ == before.shaders@
        &&& self.textures@ == before.textures@
        &&& self.texture_views@ == before.texture_views@
        &&& self.samplers@ == before.samplers@
        &&& self.bind_group_layouts@ == before.bind_group_layouts@
        &&& self.bind_groups@ == before.bind_groups@
        &&& self.render_pipelines@ == before.render_pipelines@
    }

    /// Whether the surface is configured with an extent that has no zero in it.
    pub open spec fn extent_valid(&self) -> bool {
        self.surface_config.width > 0 && self.surface_config.height > 0
    }

    /// Whether a resource of the right kind is behind the handle in `resource`.
    pub open spec fn resource_known(&self, resource: BindingResource) -> bool {
        match resource {
            BindingResource::Buffer(h) => h < self.buffers@.len(),
            BindingResource::Sampler(h) => h < self.samplers@.len(),
            BindingResource::TextureView(h) => h < self.texture_views@.len(),
        }
    }

    /// Makes the context for a surface of `size` with capabilities `caps`:
    /// the surface gets the preferred format and the first present and alpha
    /// modes on offer, and the registry is empty.
    pub fn new(size: PhysicalSize, caps: &SurfaceCapabilities) -> (r: Result<Self, StartupError>)
        ensures
            match r {
                Ok(ctx) => {
                    &&& startup_error(size, *caps) is None
                    &&& is_preferred(caps.formats@, ctx.surface_config.format)
                    &&& ctx.surface_config.width == size.width
                    &&& ctx.surface_config.height == size.height
                    &&& ctx.surface_config.present_mode == caps.present_modes@[0]
                    &&& ctx.surface_config.alpha_mode == caps.alpha_modes@[0]
                    &&& ctx.extent_valid()
                    &&& ctx.buffers@.len() == 0
                    &&& ctx.shaders@.len() == 0
                    &&& ctx.textures@.len() == 0
                    &&& ctx.texture_views@.len() == 0
                    &&& ctx.samplers@.len() == 0
                    &&& ctx.bind_group_layouts@.len() == 0
                    &&& ctx.bind_groups@.len() == 0
                    &&& ctx.render_pipelines@.len() == 0
                },
                Err(e) => startup_error(size, *caps) == Some(e),
            },
    {
        let format = match choose_format(&caps.formats) {
            Some(format) => format,
            None => { return Err(StartupError::NoSurfaceFormat); },
        };
        if caps.present_modes.len() == 0 {
            return Err(StartupError::NoPresentMode);
        }
        if caps.alpha_modes.len() == 0 {
            return Err(StartupError::NoAlphaMode);
        }
        if size.width == 0 || size.height == 0 {
            return Err(StartupError::ZeroSize);
        }
        Ok(
            Context {
                surface_config: SurfaceConfiguration {
                    format,
                    width: size.width,
                    height: size.height,
                    present_mode: caps.present_modes[0],
                    alpha_mode: caps.alpha_modes[0],
                },
                buffers: ResourceMap::new(),
                textures: ResourceMap::new(),
                texture_views: ResourceMap::new(),
                samplers: ResourceMap::new(),
                bind_group_layouts: ResourceMap::new(),
                bind_groups: ResourceMap::new(),
                shaders: ResourceMap::new(),
                render_pipelines: ResourceMap::new(),
            },
        )
    }

    /// Takes a new window size. A size with a zero in it is ignored; any
    /// other becomes the surface's extent. Returns whether the surface has
    /// to be configured anew.
    pub fn resize(&mut self, new_size: &PhysicalSize) -> (applied: bool)
        ensures
            applied == (new_size.width != 0 && new_size.height != 0),
            final(self).surface_config == resized(old(self).surface_config, *new_size),
            applied ==> final(self).surface_config.width == new_size.width
                && final(self).surface_config.height == new_size.height,
            !applied ==> final(self).surface_config == old(self).surface_config,
            final(self).same_registry(old(self)),
            old(self).extent_valid() ==> final(self).extent_valid(),
    {
        if new_size.width == 0 || new_size.height == 0 {
            return false;
        }
        self.surface_config.width = new_size.width;
        self.surface_config.height = new_size.height;
        true
    }

    /// Opens the recording scope of a frame.
    pub fn create_encoder(&self, label: &str) -> (r: CommandEncoder)
        ensures
            r.label@ == label@,
            r.commands@.len() == 0,
    {
        CommandEncoder::new(label)
    }

    /// Creates a buffer with contents `data` under `label`.
    pub fn create_buffer(&mut self, label: &str, data: &[u8], usage: BufferUsages) -> (r: Result<
        usize,
        ContextError,
    >)
        ensures
            final(self).same_but(old(self), Category::Buffer),
            r is Ok <==> !has_label(old(self).buffers@, label@),
            r matches Ok(id) ==> {
                &&& id == old(self).buffers@.len()
                &&& grown_by(final(self).buffers@, old(self).buffers@, label@)
                &&& final(self).buffers@[id as int].1.data@ == data@
                &&& final(self).buffers@[id as int].1.usage == usage
                &&& !final(self).buffers@[id as int].1.needs_update
            },
            r matches Err(e) ==> e == ContextError::DuplicateLabel(Category::Buffer)
                && final(self).buffers@ == old(self).buffers@,
    {
        let ghost before = self.buffers@;
        match self.buffers.insert(label, Buffer::new(data, usage)) {
            Some(id) => {
                assert(self.buffers@.drop_last() =~= before);
                Ok(id)
            },
            None => Err(ContextError::DuplicateLabel(Category::Buffer)),
        }
    }

    /// Creates a texture under `label`.
    pub fn create_texture(
        &mut self,
        label: &str,
        size: Extent3d,
        mip_level_count: u32,
        sample_count: u32,
        dimension: TextureDimension,
        format: TextureFormat,
        usage: TextureUsages,
    ) -> (r: Result<usize, ContextError>)
        ensures
            final(self).same_but(old(self), Category::Texture),
            r is Ok <==> !has_label(old(self).textures@, label@),
            r matches Ok(id) ==> id == old(self).textures@.len() && final(self).textures@ == old(
                self,
            ).textures@.push(
                (
                    label@,
                    Texture { size, mip_level_count, sample_count, dimension, format, usage },
                ),
            ),
            r matches Err(e) ==> e == ContextError::DuplicateLabel(Category::Texture)
                && final(self).textures@ == old(self).textures@,
    {
        let texture = Texture::new(size, mip_level_count, sample_count, dimension, format, usage);
        match self.textures.insert(label, texture) {
            Some(id) => Ok(id),
            None => Err(ContextError::DuplicateLabel(Category::Texture)),
        }
    }

    /// Names a shader program by the path of its source, under `label`.
    pub fn create_shader(&mut self, label: &str, code_path: &str) -> (r: Result<
        usize,
        ContextError,
    >)
        ensures
            final(self).same_but(old(self), Category::Shader),
            r is Ok <==> !has_label(old(self).shaders@, label@),
            r matches Ok(id) ==> {
                &&& id == old(self).shaders@.len()
                &&& grown_by(final(self).shaders@, old(self).shaders@, label@)
                &&& final(self).shaders@[id as int].1.code_path@ == code_path@
            },
            r matches Err(e) ==> e == ContextError::DuplicateLabel(Category::Shader)
                && final(self).shaders@ == old(self).shaders@,
    {
        let ghost before = self.shaders@;
        match self.shaders.insert(label, Shader::new(code_path)) {
            Some(id) => {
                assert(self.shaders@.drop_last() =~= before);
                Ok(id)
            },
            None => Err(ContextError::DuplicateLabel(Category::Shader)),
        }
    }

    /// Creates a sampler under `label`.
    pub fn create_sampler(
        &mut self,
        label: &str,
        address_mode_u: AddressMode,
        address_mode_v: AddressMode,
        address_mode_w: AddressMode,
        min_filter: FilterMode,
        mag_filter: FilterMode,
        mipmap_filter: FilterMode,
    ) -> (r: Result<usize, ContextError>)
        ensures
            final(self).same_but(old(self), Category::Sampler),
            r is Ok <==> !has_label(old(self).samplers@, label@),
            r matches Ok(id) ==> id == old(self).samplers@.len() && final(self).samplers@ == old(
                self,
            ).samplers@.push(
                (
                    label@,
                    Sampler {
                        address_mode_u,
                        address_mode_v,
                        address_mode_w,
                        min_filter,
                        mag_filter,
                        mipmap_filter,
                    },
                ),
            ),
            r matches Err(e) ==> e == ContextError::DuplicateLabel(Category::Sampler)
                && final(self).samplers@ == old(self).samplers@,
    {
        let sampler = Sampler::new(
            address_mode_u,
            address_mode_v,
            address_mode_w,
            min_filter,
            mag_filter,
            mipmap_filter,
        );
        match self.samplers.insert(label, sampler) {
            Some(id) => Ok(id),
            None => Err(ContextError::DuplicateLabel(Category::Sampler)),
        }
    }

    /// Creates a view of the texture behind `texture`, under `label`.
    pub fn create_texture_view(&mut self, texture: usize, label: &str) -> (r: Result<
        usize,
        ContextError,
    >)
        ensures
            final(self).same_but(old(self), Category::TextureView),
            r is Ok <==> texture < old(self).textures@.len() && !has_label(
                old(self).texture_views@,
                label@,
            ),
            r matches Ok(id) ==> id == old(self).texture_views@.len() && final(self).texture_views@
                == old(self).texture_views@.push((label@, TextureView { texture })),
            r is Err ==> final(self).texture_views@ == old(self).texture_views@,
            texture >= old(self).textures@.len() ==> r == Err::<usize, ContextError>(
                ContextError::UnknownHandle(Category::Texture, texture),
            ),
            texture < old(self).textures@.len() && r is Err ==> r == Err::<usize, ContextError>(
                ContextError::DuplicateLabel(Category::TextureView),
            ),
    {
        if texture >= self.textures.len() {
            return Err(ContextError::UnknownHandle(Category::Texture, texture));
        }
        match self.texture_views.insert(label, TextureView::new(texture)) {
            Some(id) => Ok(id),
            None => Err(ContextError::DuplicateLabel(Category::TextureView)),
        }
    }

    /// The buffer under `label`. The label has to be held: a lookup that
    /// misses is a fault of the caller, and it has no answer. Where that is
    /// not known, `find_buffer` tells, and names what is missing.
    pub fn get_buffer(&self, label: &str) -> (r: &Buffer)
        requires
            has_label(self.buffers@, label@),
        ensures
            *r == self.buffers@[index_of(self.buffers@, label@)].1,
    {
        match self.buffers.get(label) {
            Some(found) => found,
            None => unreached(),
        }
    }

    /// The handle of the buffer under `label`; or, where the label is
    /// not held, the label and the store that it is missing from.
    pub fn find_buffer(&self, label: &str) -> (r: Result<usize, LookupError>)
        ensures
            r is Ok <==> has_label(self.buffers@, label@),
            r matches Ok(id) ==> {
                &&& id < self.buffers@.len()
                &&& self.buffers@[id as int].0 == label@
                &&& id == index_of(self.buffers@, label@)
            },
            r matches Err(e) ==> e.label@ == label@ && e.category == Category::Buffer,
    {
        match self.buffers.find(label) {
            Some(id) => Ok(id),
            None => Err(LookupError::new(label, Category::Buffer)),
        }
    }

    /// The shader under `label`. The label has to be held: a lookup that
    /// misses is a fault of the caller, and it has no answer. Where that is
    /// not known, `find_shader` tells, and names what is missing.
    pub fn get_shader(&self, label: &str) -> (r: &Shader)
        requires
            has_label(self.shaders@, label@),
        ensures
            *r == self.shaders@[index_of(self.shaders@, label@)].1,
    {
        match self.shaders.get(label) {
            Some(found) => found,
            None => unreached(),
        }
    }

    /// The handle of the shader under `label`; or, where the label is
    /// not held, the label and the store that it is missing from.
    pub fn find_shader(&self, label: &str) -> (r: Result<usize, LookupError>)
        ensures
            r is Ok <==> has_label(self.shaders@, label@),
            r matches Ok(id) ==> {
                &&& id < self.shaders@.len()
                &&& self.shaders@[id as int].0 == label@
                &&& id == index_of(self.shaders@, label@)
            },
            r matches Err(e) ==> e.label@ == label@ && e.category == Category::Shader,
    {
        match self.shaders.find(label) {
            Some(id) => Ok(id),
            None => Err(LookupError::new(label, Category::Shader)),
        }
    }

    /// The texture under `label`. The label has to be held: a lookup that
    /// misses is a fault of the caller, and it has no answer. Where that is
    /// not known, `find_texture` tells, and names what is missing.
    pub fn get_texture(&self, label: &str) -> (r: &Texture)
        requires
            has_label(self.textures@, label@),
        ensures
            *r == self.textures@[index_of(self.textures@, label@)].1,
    {
        match self.textures.get(label) {
            Some(found) => found,
            None => unreached(),
        }
    }

    /// The handle of the texture under `label`; or, where the label is
    /// not held, the label and the store that it is missing from.
    pub fn find_texture(&self, label: &str) -> (r: Result<usize, LookupError>)
        ensures
            r is Ok <==> has_label(self.textures@, label@),
            r matches Ok(id) ==> {
                &&& id < self.textures@.len()
                &&& self.textures@[id as int].0 == label@
                &&& id == index_of(self.textures@, label@)
            },
            r matches Err(e) ==> e.label@ == label@ && e.category == Category::Texture,
    {
        match self.textures.find(label) {
            Some(id) => Ok(id),
            None => Err(LookupError::new(label, Category::Texture)),
        }
    }

    /// The texture view under `label`. The label has to be held: a lookup that
    /// misses is a fault of the caller, and it has no answer. Where that is
    /// not known, `find_texture_view` tells, and names what is missing.
    pub fn get_texture_view(&self, label: &str) -> (r: &TextureView)
        requires
            has_label(self.texture_views@, label@),
        ensures
            *r == self.texture_views@[index_of(self.texture_views@, label@)].1,
    {
        match self.texture_views.get(label) {
            Some(found) => found,
            None => unreached(),
        }
    }

    /// The handle of the texture view under `label`; or, where the label is
    /// not held, the label and the store that it is missing from.
    pub fn find_texture_view(&self, label: &str) -> (r: Result<usize, LookupError>)
        ensures
            r is Ok <==> has_label(self.texture_views@, label@),
            r matches Ok(id) ==> {
                &&& id < self.texture_views@.len()
                &&& self.texture_views@[id as int].0 == label@
                &&& id == index_of(self.texture_views@, label@)
            },
            r matches Err(e) ==> e.label@ == label@ && e.category == Category::TextureView,
    {
        match self.texture_views.find(label) {
            Some(id) => Ok(id),
            None => Err(LookupError::new(label, Category::TextureView)),
        }
    }

    /// The sampler under `label`. The label has to be held: a lookup that
    /// misses is a fault of the caller, and it has no answer. Where that is
    /// not known, `find_sampler` tells, and names what is missing.
    pub fn get_sampler(&self, label: &str) -> (r: &Sampler)
        requires
            has_label(self.samplers@, label@),
        ensures
            *r == self.samplers@[index_of(self.samplers@, label@)].1,
    {
        match self.samplers.get(label) {
            Some(found) => found,
            None => unreached(),
        }
    }

    /// The handle of the sampler under `label`; or, where the label is
    /// not held, the label and the store that it is missing from.
    pub fn find_sampler(&self, label: &str) -> (r: Result<usize, LookupError>)
        ensures
            r is Ok <==> has_label(self.samplers@, label@),
            r matches Ok(id) ==> {
                &&& id < self.samplers@.len()
                &&& self.samplers@[id as int].0 == label@
                &&& id == index_of(self.samplers@, label@)
            },
            r matches Err(e) ==> e.label@ == label@ && e.category == Category::Sampler,
    {
        match self.samplers.find(label) {
            Some(id) => Ok(id),
            None => Err(LookupError::new(label, Category::Sampler)),
        }
    }

    /// The bind group layout under `label`. The label has to be held: a lookup that
    /// misses is a fault of the caller, and it has no answer. Where that is
    /// not known, `find_bind_group_layout` tells, and names what is missing.
    pub fn get_bind_group_layout(&self, label: &str) -> (r: &BindGroupLayout)
        requires
            has_label(self.bind_group_layouts@, label@),
        ensures
            *r == self.bind_group_layouts@[index_of(self.bind_group_layouts@, label@)].1,
    {
        match self.bind_group_layouts.get(label) {
            Some(found) => found,
            None => unreached(),
        }
    }

    /// The handle of the bind group layout under `label`; or, where the label is
    /// not held, the label and the store that it is missing from.
    pub fn find_bind_group_layout(&self, label: &str) -> (r: Result<usize, LookupError>)
        ensures
            r is Ok <==> has_label(self.bind_group_layouts@, label@),
            r matches Ok(id) ==> {
                &&& id < self.bind_group_layouts@.len()
                &&& self.bind_group_layouts@[id as int].0 == label@
                &&& id == index_of(self.bind_group_layouts@, label@)
            },
            r matches Err(e) ==> e.label@ == label@ && e.category == Category::BindGroupLayout,
    {
        match self.bind_group_layouts.find(label) {
            Some(id) => Ok(id),
            None => Err(LookupError::new(label, Category::BindGroupLayout)),
        }
    }

    /// The bind group under `label`. The label has to be held: a lookup that
    /// misses is a fault of the caller, and it has no answer. Where that is
    /// not known, `find_bind_group` tells, and names what is missing.
    pub fn get_bind_group(&self, label: &str) -> (r: &BindGroup)
        requires
            has_label(self.bind_groups@, label@),
        ensures
            *r == self.bind_groups@[index_of(self.bind_groups@, label@)].1,
    {
        match self.bind_groups.get(label) {
            Some(found) => found,
            None => unreached(),
        }
    }

    /// The handle of the bind group under `label`; or, where the label is
    /// not held, the label and the store that it is missing from.
    pub fn find_bind_group(&self, label: &str) -> (r: Result<usize, LookupError>)
        ensures
            r is Ok <==> has_label(self.bind_groups@, label@),
            r matches Ok(id) ==> {
                &&& id < self.bind_groups@.len()
                &&& self.bind_groups@[id as int].0 == label@
                &&& id == index_of(self.bind_groups@, label@)
            },
            r matches Err(e) ==> e.label@ == label@ && e.category == Category::BindGroup,
    {
        match self.bind_groups.find(label) {
            Some(id) => Ok(id),
            None => Err(LookupError::new(label, Category::BindGroup)),
        }
    }

    /// The render pipeline under `label`. The label has to be held: a lookup that
    /// misses is a fault of the caller, and it has no answer. Where that is
    /// not known, `find_render_pipeline` tells, and names what is missing.
    pub fn get_render_pipeline(&self, label: &str) -> (r: &RenderPipeline)
        requires
            has_label(self.render_pipelines@, label@),
        ensures
            *r == self.render_pipelines@[index_of(self.render_pipelines@, label@)].1,
    {
        match self.render_pipelines.get(label) {
            Some(found) => found,
            None => unreached(),
        }
    }

    /// The handle of the render pipeline under `label`; or, where the label is
    /// not held, the label and the store that it is missing from.
    pub fn find_render_pipeline(&self, label: &str) -> (r: Result<usize, LookupError>)
        ensures
            r is Ok <==> has_label(self.render_pipelines@, label@),
            r matches Ok(id) ==> {
                &&& id < self.render_pipelines@.len()
                &&& self.render_pipelines@[id as int].0 == label@
                &&& id == index_of(self.render_pipelines@, label@)
            },
            r matches Err(e) ==> e.label@ == label@ && e.category == Category::RenderPipeline,
    {
        match self.render_pipelines.find(label) {
            Some(id) => Ok(id),
            None => Err(LookupError::new(label, Category::RenderPipeline)),
        }
    }
}

/// Whether every entry fits the slot at its own position.
pub open spec fn all_fit(slots: Seq<BindGroupLayoutEntry>, entries: Seq<BindGroupEntry>) -> bool {
    forall|i: int| 0 <= i < entries.len() ==> entry_fits(slots[i], #[trigger] entries[i])
}

/// Whether `data` is `before` with `bytes` written over it from `offset` on.
pub open spec fn overwritten(data: Seq<u8>, before: Seq<u8>, offset: int, bytes: Seq<u8>) -> bool {
    &&& data.len() == before.len()
    &&& forall|i: int|
        0 <= i < data.len() ==> (#[trigger] data[i]) == if offset <= i < offset + bytes.len() {
            bytes[i - offset]
        } else {
            before[i]
        }
}

impl Context {
    /// Whether every entry names a resource that the registry holds.
    pub open spec fn all_known(&self, entries: Seq<BindGroupEntry>) -> bool {
        forall|i: int| 0 <= i < entries.len() ==> self.resource_known((#[trigger] entries[i]).resource)
    }

    /// Whether every handle in `handles` has a binding-group layout behind it.
    pub open spec fn layouts_known(&self, handles: Seq<usize>) -> bool {
        forall|i: int| 0 <= i < handles.len() ==> (#[trigger] handles[i]) < self.bind_group_layouts@.len()
    }

    /// Whether a resource of the right kind is behind the handle in `resource`.
    pub fn knows(&self, resource: BindingResource) -> (r: bool)
        ensures
            r == self.resource_known(resource),
    {
        match resource {
            BindingResource::Buffer(h) => h < self.buffers.len(),
            BindingResource::Sampler(h) => h < self.samplers.len(),
            BindingResource::TextureView(h) => h < self.texture_views.len(),
        }
    }

    /// Composes a layout of `entries`, in their order, under `label`. No two
    /// entries may have the same slot number.
    pub fn create_bind_group_layout(&mut self, label: &str, entries: Vec<BindGroupLayoutEntry>) -> (r:
        Result<usize, ContextError>)
        ensures
            final(self).same_but(old(self), Category::BindGroupLayout),
            r is Ok <==> slots_distinct(entries@) && !has_label(
                old(self).bind_group_layouts@,
                label@,
            ),
            r matches Ok(id) ==> {
                &&& id == old(self).bind_group_layouts@.len()
                &&& grown_by(final(self).bind_group_layouts@, old(self).bind_group_layouts@, label@)
                &&& final(self).bind_group_layouts@[id as int].1.entries@ == entries@
            },
            r is Err ==> final(self).bind_group_layouts@ == old(self).bind_group_layouts@,
            !slots_distinct(entries@) ==> (r matches Err(ContextError::DuplicateBinding(j))
                && first_repeat(entries@, j as int)),
            slots_distinct(entries@) && r is Err ==> r == Err::<usize, ContextError>(
                ContextError::DuplicateLabel(Category::BindGroupLayout),
            ),
    {
        let ghost before = self.bind_group_layouts@;
        let layout = match BindGroupLayout::new(entries) {
            Ok(layout) => layout,
            Err(j) => { return Err(ContextError::DuplicateBinding(j)); },
        };
        match self.bind_group_layouts.insert(label, layout) {
            Some(id) => {
                assert(self.bind_group_layouts@.drop_last() =~= before);
                Ok(id)
            },
            None => Err(ContextError::DuplicateLabel(Category::BindGroupLayout)),
        }
    }

    /// Whether a binding group of `entries` can be made for the layout behind
    /// `layout`: there is such a layout, it has as many slots as there are
    /// entries, each entry fits the slot at its position, and each names a
    /// resource that is held.
    pub open spec fn binds(&self, layout: usize, entries: Seq<BindGroupEntry>) -> bool {
        &&& layout < self.bind_group_layouts@.len()
        &&& entries.len() == self.bind_group_layouts@[layout as int].1.entries@.len()
        &&& all_fit(self.bind_group_layouts@[layout as int].1.entries@, entries)
        &&& self.all_known(entries)
    }

    /// Binds `entries` to the slots of the layout behind `layout`, under
    /// `label`. The entries are held against the layout one by one, in order:
    /// the first fault found is the one reported, the layout's absence
    /// before the count, the count before a misfit, a misfit before an
    /// unknown resource, and all of them before a label already taken.
    pub fn create_bind_group(&mut self, label: &str, layout: usize, entries: Vec<BindGroupEntry>) -> (r:
        Result<usize, ContextError>)
        ensures
            final(self).same_but(old(self), Category::BindGroup),
            r is Ok <==> old(self).binds(layout, entries@) && !has_label(
                old(self).bind_groups@,
                label@,
            ),
            r matches Ok(id) ==> {
                &&& id == old(self).bind_groups@.len()
                &&& grown_by(final(self).bind_groups@, old(self).bind_groups@, label@)
                &&& final(self).bind_groups@[id as int].1.layout == layout
                &&& final(self).bind_groups@[id as int].1.entries@ == entries@
            },
            r is Err ==> final(self).bind_groups@ == old(self).bind_groups@,
            layout >= old(self).bind_group_layouts@.len() ==> r == Err::<usize, ContextError>(
                ContextError::UnknownHandle(Category::BindGroupLayout, layout),
            ),
            layout < old(self).bind_group_layouts@.len() ==> {
                let slots = old(self).bind_group_layouts@[layout as int].1.entries@;
                &&& entries@.len() != slots.len() ==> r == Err::<usize, ContextError>(
                    ContextError::EntryCount {
                        expected: slots.len() as usize,
                        found: entries@.len() as usize,
                    },
                )
                &&& entries@.len() == slots.len() && !all_fit(slots, entries@) ==> (r matches Err(
                    ContextError::BindingMismatch(i),
                ) && i < entries@.len() && !entry_fits(slots[i as int], entries@[i as int])
                    && all_fit(slots, entries@.subrange(0, i as int)))
                &&& entries@.len() == slots.len() && all_fit(slots, entries@) && !old(
                    self,
                ).all_known(entries@) ==> (r matches Err(ContextError::UnknownHandle(category, handle))
                    && exists|i: int|
                    0 <= i < entries@.len() && !old(self).resource_known(
                        (#[trigger] entries@[i]).resource,
                    ) && old(self).all_known(entries@.subrange(0, i)) && (category, handle)
                        == handle_of(entries@[i].resource))
                &&& old(self).binds(layout, entries@) && r is Err ==> r == Err::<
                    usize,
                    ContextError,
                >(ContextError::DuplicateLabel(Category::BindGroup))
            },
    {
        let ghost before = self.bind_groups@;
        let slots = match self.bind_group_layouts.get_at(layout) {
            Some(found) => &found.entries,
            None => {
                return Err(ContextError::UnknownHandle(Category::BindGroupLayout, layout));
            },
        };
        if entries.len() != slots.len() {
            return Err(ContextError::EntryCount { expected: slots.len(), found: entries.len() });
        }
        let mut i: usize = 0;
        while i < entries.len()
            invariant
                i <= entries@.len(),
                entries@.len() == slots@.len(),
                *self == *old(self),
                layout < self.bind_group_layouts@.len(),
                slots@ == self.bind_group_layouts@[layout as int].1.entries@,
                all_fit(slots@, entries@.subrange(0, i as int)),
            decreases entries@.len() - i,
        {
            let fits = slots[i].binding == entries[i].binding && slots[i].ty.kind()
                == entries[i].resource.kind();
            if !fits {
                proof {
                    let k = i as int;
                    assert(!entry_fits(slots@[k], entries@[k]));
                }
                return Err(ContextError::BindingMismatch(i));
            }
            proof {
                let shorter = entries@.subrange(0, i as int);
                let longer = entries@.subrange(0, i + 1);
                assert forall|k: int| 0 <= k < longer.len() implies entry_fits(
                    slots@[k],
                    #[trigger] longer[k],
                ) by {
                    if k < i {
                        assert(entry_fits(slots@[k], shorter[k]));
                    }
                }
            }
            i += 1;
        }
        assert(entries@.subrange(0, i as int) =~= entries@);
        let mut i: usize = 0;
        while i < entries.len()
            invariant
                i <= entries@.len(),
                entries@.len() == slots@.len(),
                *self == *old(self),
                layout < self.bind_group_layouts@.len(),
                slots@ == self.bind_group_layouts@[layout as int].1.entries@,
                all_fit(slots@, entries@),
                self.all_known(entries@.subrange(0, i as int)),
            decreases entries@.len() - i,
        {
            if !self.knows(entries[i].resource) {
                proof {
                    let k = i as int;
                    assert(0 <= k < entries@.len() && !self.resource_known(entries@[k].resource));
                }
                return Err(resource_error(entries[i].resource));
            }
            proof {
                let shorter = entries@.subrange(0, i as int);
                let longer = entries@.subrange(0, i + 1);
                assert forall|k: int| 0 <= k < longer.len() implies self.resource_known(
                    (#[trigger] longer[k]).resource,
                ) by {
                    if k < i {
                        assert(self.resource_known(shorter[k].resource));
                    }
                }
            }
            i += 1;
        }
        assert(entries@.subrange(0, i as int) =~= entries@);
        match self.bind_groups.insert(label, BindGroup::new(layout, entries)) {
            Some(id) => {
                assert(self.bind_groups@.drop_last() =~= before);
                Ok(id)
            },
            None => Err(ContextError::DuplicateLabel(Category::BindGroup)),
        }
    }

    /// Builds a pipeline state object under `label`: the slots of the
    /// layouts behind `layout`, in that order, and the program behind
    /// `shader`. The first handle of `layout` that has no layout behind it is
    /// reported before a missing shader, and that before a label already
    /// taken.
    pub fn create_render_pipeline(
        &mut self,
        label: &str,
        layout: Vec<usize>,
        shader: usize,
        buffers: Vec<VertexBufferLayout>,
        color_target_state: Option<ColorTargetState>,
        depth_target_state: Option<DepthStencilState>,
        topology: PrimitiveTopology,
        polygon_mode: PolygonMode,
    ) -> (r: Result<usize, ContextError>)
        ensures
            final(self).same_but(old(self), Category::RenderPipeline),
            r is Ok <==> old(self).layouts_known(layout@) && shader < old(self).shaders@.len()
                && !has_label(old(self).render_pipelines@, label@),
            r matches Ok(id) ==> {
                &&& id == old(self).render_pipelines@.len()
                &&& grown_by(final(self).render_pipelines@, old(self).render_pipelines@, label@)
                &&& final(self).render_pipelines@[id as int].1.layout@ == layout@
                &&& final(self).render_pipelines@[id as int].1.shader == shader
                &&& final(self).render_pipelines@[id as int].1.buffers@ == buffers@
                &&& final(self).render_pipelines@[id as int].1.color_target == color_target_state
                &&& final(self).render_pipelines@[id as int].1.depth_stencil == depth_target_state
                &&& final(self).render_pipelines@[id as int].1.topology == topology
                &&& final(self).render_pipelines@[id as int].1.polygon_mode == polygon_mode
            },
            r is Err ==> final(self).render_pipelines@ == old(self).render_pipelines@,
            !old(self).layouts_known(layout@) ==> (r matches Err(
                ContextError::UnknownHandle(Category::BindGroupLayout, h),
            ) && exists|i: int|
                0 <= i < layout@.len() && (#[trigger] layout@[i]) == h && h >= old(
                    self,
                ).bind_group_layouts@.len() && old(self).layouts_known(layout@.subrange(0, i))),
            old(self).layouts_known(layout@) && shader >= old(self).shaders@.len() ==> r == Err::<
                usize,
                ContextError,
            >(ContextError::UnknownHandle(Category::Shader, shader)),
            old(self).layouts_known(layout@) && shader < old(self).shaders@.len() && r is Err ==> r
                == Err::<usize, ContextError>(ContextError::DuplicateLabel(Category::RenderPipeline)),
    {
        let ghost before = self.render_pipelines@;
        let mut i: usize = 0;
        while i < layout.len()
            invariant
                i <= layout@.len(),
                self.layouts_known(layout@.subrange(0, i as int)),
            decreases layout@.len() - i,
        {
            if layout[i] >= self.bind_group_layouts.len() {
                proof {
                    let k = i as int;
                    assert(0 <= k < layout@.len() && layout@[k] == layout@[i as int]);
                }
                return Err(ContextError::UnknownHandle(Category::BindGroupLayout, layout[i]));
            }
            proof {
                let shorter = layout@.subrange(0, i as int);
                let longer = layout@.subrange(0, i + 1);
                assert forall|k: int| 0 <= k < longer.len() implies (#[trigger] longer[k])
                    < self.bind_group_layouts@.len() by {
                    if k < i {
                        assert(shorter[k] < self.bind_group_layouts@.len());
                    }
                }
            }
            i += 1;
        }
        assert(layout@.subrange(0, i as int) =~= layout@);
        if shader >= self.shaders.len() {
            return Err(ContextError::UnknownHandle(Category::Shader, shader));
        }
        let pipeline = RenderPipeline::new(
            layout,
            shader,
            buffers,
            color_target_state,
            depth_target_state,
            topology,
            polygon_mode,
        );
        match self.render_pipelines.insert(label, pipeline) {
            Some(id) => {
                assert(self.render_pipelines@.drop_last() =~= before);
                Ok(id)
            },
            None => Err(ContextError::DuplicateLabel(Category::RenderPipeline)),
        }
    }

    /// What a write of `len` bytes from `offset` on into the buffer behind
    /// `buffer` comes to: there has to be such a buffer, it has to have been
    /// created as a destination of copies, and the write has to end within
    /// it.
    pub open spec fn write_result(&self, buffer: usize, offset: int, len: int) -> Result<
        (),
        ContextError,
    > {
        if buffer >= self.buffers@.len() {
            Err(ContextError::UnknownHandle(Category::Buffer, buffer))
        } else if !self.buffers@[buffer as int].1.usage.copy_dst {
            Err(ContextError::NotCopyDst)
        } else if offset + len > self.buffers@[buffer as int].1.data@.len() {
            Err(ContextError::OutOfRange)
        } else {
            Ok(())
        }
    }

    /// Writes `data` over the contents of the buffer behind `buffer`, from
    /// `offset` on. The buffer keeps its size, its label and its usages; it
    /// must have been created as a destination of copies, and the write must
    /// end within it.
    pub fn write_buffer(&mut self, buffer: usize, offset: usize, data: &[u8]) -> (r: Result<
        (),
        ContextError,
    >)
        ensures
            final(self).same_but(old(self), Category::Buffer),
            final(self).buffers@.len() == old(self).buffers@.len(),
            labels_unique(final(self).buffers@),
            r == old(self).write_result(buffer, offset as int, data@.len() as int),
            r is Err ==> final(self).buffers@ == old(self).buffers@,
            r is Ok ==> {
                &&& forall|i: int|
                    0 <= i < final(self).buffers@.len() && i != buffer ==> (
                    #[trigger] final(self).buffers@[i]) == old(self).buffers@[i]
                &&& final(self).buffers@[buffer as int].0 == old(self).buffers@[buffer as int].0
                &&& final(self).buffers@[buffer as int].1.usage == old(
                    self,
                ).buffers@[buffer as int].1.usage
                &&& overwritten(
                    final(self).buffers@[buffer as int].1.data@,
                    old(self).buffers@[buffer as int].1.data@,
                    offset as int,
                    data@,
                )
            },
    {
        let target = match self.buffers.get_at(buffer) {
            Some(found) => found,
            None => { return Err(ContextError::UnknownHandle(Category::Buffer, buffer)); },
        };
        if !target.usage.copy_dst {
            return Err(ContextError::NotCopyDst);
        }
        let size = target.data.len();
        if offset > size || data.len() > size - offset {
            return Err(ContextError::OutOfRange);
        }
        let mut bytes: Vec<u8> = Vec::new();
        let mut i: usize = 0;
        while i < size
            invariant
                i <= size,
                size == target.data@.len(),
                offset + data@.len() <= size,
                bytes@.len() == i,
                forall|k: int|
                    0 <= k < i ==> (#[trigger] bytes@[k]) == if offset <= k < offset + data@.len() {
                        data@[k - offset]
                    } else {
                        target.data@[k]
                    },
            decreases size - i,
        {
            if offset <= i && i - offset < data.len() {
                bytes.push(data[i - offset]);
            } else {
                bytes.push(target.data[i]);
            }
            i += 1;
        }
        let written = Buffer { data: bytes, usage: target.usage, needs_update: target.needs_update };
        self.buffers.replace(buffer, written);
        Ok(())
    }
}

/// The kind and the handle of the resource that `resource` names.
pub open spec fn handle_of(resource: BindingResource) -> (Category, usize) {
    match resource {
        BindingResource::Buffer(h) => (Category::Buffer, h),
        BindingResource::Sampler(h) => (Category::Sampler, h),
        BindingResource::TextureView(h) => (Category::TextureView, h),
    }
}

/// The error for a bound resource that the registry does not hold.
pub fn resource_error(resource: BindingResource) -> (r: ContextError)
    ensures
        r == ContextError::UnknownHandle(handle_of(resource).0, handle_of(resource).1),
{
    match resource {
        BindingResource::Buffer(h) => ContextError::UnknownHandle(Category::Buffer, h),
        BindingResource::Sampler(h) => ContextError::UnknownHandle(Category::Sampler, h),
        BindingResource::TextureView(h) => ContextError::UnknownHandle(Category::TextureView, h),
    }
}

} // verus!
