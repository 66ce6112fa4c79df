use vstd::prelude::*;

verus! {

/// Width and height of a window or surface, in physical pixels.
#[derive(Clone, Copy, Debug, PartialEq, Eq, Structural)]
pub struct PhysicalSize {
    pub width: u32,
    pub height: u32,
}

/// Extent of a texture.
#[derive(Clone, Copy, Debug, PartialEq, Eq, Structural)]
pub struct Extent3d {
    pub width: u32,
    pub height: u32,
    pub depth_or_array_layers: u32,
}

/// The texel formats that this layer creates, and those that a surface can
/// offer it to present to.
#[derive(Clone, Copy, Debug, PartialEq, Eq, Structural)]
pub enum TextureFormat {
    Rgba8Unorm,
    Rgba8Snorm,
    Rgba8UnormSrgb,
    Bgra8Unorm,
    Bgra8UnormSrgb,
    Rgb10a2Unorm,
    Rgba16Unorm,
    Rgba16Snorm,
    Rgba16Float,
    Rgba32Float,
    Depth24Plus,
    Depth32Float,
}

impl TextureFormat {
    /// Whether the format stores colour in the sRGB transfer encoding.
    pub open spec fn srgb(self) -> bool {
        self == TextureFormat::Rgba8UnormSrgb || self == TextureFormat::Bgra8UnormSrgb
    }

    /// Whether the format holds depth rather than colour.
    pub open spec fn depth(self) -> bool {
        self == TextureFormat::Depth24Plus || self == TextureFormat::Depth32Float
    }

    /// Asks `wgpu::TextureFormat::is_srgb` about the format of the same name.
    /// Claimed of it: it answers `true` for exactly the two formats of this
    /// enum whose names end in `Srgb`, since only those differ from what is
    /// left once the suffix is removed.
    #[verifier::external_body]
    pub(crate) fn wgpu_is_srgb(self) -> (r: bool)
        ensures
            r == self.srgb(),
    {
        match self {
            TextureFormat::Rgba8Unorm => wgpu::TextureFormat::Rgba8Unorm,
            TextureFormat::Rgba8Snorm => wgpu::TextureFormat::Rgba8Snorm,
            TextureFormat::Rgba8UnormSrgb => wgpu::TextureFormat::Rgba8UnormSrgb,
            TextureFormat::Bgra8Unorm => wgpu::TextureFormat::Bgra8Unorm,
            TextureFormat::Bgra8UnormSrgb => wgpu::TextureFormat::Bgra8UnormSrgb,
            TextureFormat::Rgb10a2Unorm => wgpu::TextureFormat::Rgb10a2Unorm,
            TextureFormat::Rgba16Unorm => wgpu::TextureFormat::Rgba16Unorm,
            TextureFormat::Rgba16Snorm => wgpu::TextureFormat::Rgba16Snorm,
            TextureFormat::Rgba16Float => wgpu::TextureFormat::Rgba16Float,
            TextureFormat::Rgba32Float => wgpu::TextureFormat::Rgba32Float,
            TextureFormat::Depth24Plus => wgpu::TextureFormat::Depth24Plus,
            TextureFormat::Depth32Float => wgpu::TextureFormat::Depth32Float,
        }.is_srgb()
    }

    /// Whether the format stores colour in the sRGB transfer encoding.
    pub fn is_srgb(&self) -> (r: bool)
        ensures
            r == self.srgb(),
    {
        self.wgpu_is_srgb()
    }

    /// Whether the format holds depth rather than colour.
    pub fn is_depth(&self) -> (r: bool)
        ensures
            r == self.depth(),
    {
        match self {
            TextureFormat::Depth24Plus => true,
            TextureFormat::Depth32Float => true,
            _ => false,
        }
    }
}

/// How many dimensions a texture has.
#[derive(Clone, Copy, Debug, PartialEq, Eq, Structural)]
pub enum TextureDimension {
    D1,
    D2,
    D3,
}

/// How the images of a surface are timed against the display.
#[derive(Clone, Copy, Debug, PartialEq, Eq, Structural)]
pub enum PresentMode {
    AutoVsync,
    AutoNoVsync,
    Fifo,
    FifoRelaxed,
    Immediate,
    Mailbox,
}

/// How the alpha channel of a surface is composited with what lies behind.
#[derive(Clone, Copy, Debug, PartialEq, Eq, Structural)]
pub enum CompositeAlphaMode {
    Auto,
    Opaque,
    PreMultiplied,
    PostMultiplied,
    Inherit,
}

/// What a sampler reads beyond the edge of a texture.
#[derive(Clone, Copy, Debug, PartialEq, Eq, Structural)]
pub enum AddressMode {
    ClampToEdge,
    Repeat,
    MirrorRepeat,
    ClampToBorder,
}

/// How a sampler blends neighbouring texels.
#[derive(Clone, Copy, Debug, PartialEq, Eq, Structural)]
pub enum FilterMode {
    Nearest,
    Linear,
}

/// The comparison of a depth test.
#[derive(Clone, Copy, Debug, PartialEq, Eq, Structural)]
pub enum CompareFunction {
    Never,
    Less,
    Equal,
    LessEqual,
    Greater,
    NotEqual,
    GreaterEqual,
    Always,
}

/// How vertices are assembled into primitives.
#[derive(Clone, Copy, Debug, PartialEq, Eq, Structural)]
pub enum PrimitiveTopology {
    PointList,
    LineList,
    LineStrip,
    TriangleList,
    TriangleStrip,
}

/// How a polygon is rasterised.
#[derive(Clone, Copy, Debug, PartialEq, Eq, Structural)]
pub enum PolygonMode {
    Fill,
    Line,
    Point,
}

/// The winding of a triangle that faces the viewer.
#[derive(Clone, Copy, Debug, PartialEq, Eq, Structural)]
pub enum FrontFace {
    Ccw,
    Cw,
}

/// A side of a triangle.
#[derive(Clone, Copy, Debug, PartialEq, Eq, Structural)]
pub enum Face {
    Front,
    Back,
}

/// The width of the indices in an index buffer.
#[derive(Clone, Copy, Debug, PartialEq, Eq, Structural)]
pub enum IndexFormat {
    Uint16,
    Uint32,
}

/// How a fragment is combined with what the target holds.
#[derive(Clone, Copy, Debug, PartialEq, Eq, Structural)]
pub enum BlendState {
    Replace,
    AlphaBlending,
    PremultipliedAlphaBlending,
}

/// What a buffer may be used for.
#[derive(Clone, Copy, Debug, PartialEq, Eq, Structural)]
pub struct BufferUsages {
    pub map_read: bool,
    pub map_write: bool,
    pub copy_src: bool,
    pub copy_dst: bool,
    pub index: bool,
    pub vertex: bool,
    pub uniform: bool,
    pub storage: bool,
    pub indirect: bool,
    pub query_resolve: bool,
}

impl BufferUsages {
    pub open spec fn none() -> Self {
        BufferUsages {
            map_read: false,
            map_write: false,
            copy_src: false,
            copy_dst: false,
            index: false,
            vertex: false,
            uniform: false,
            storage: false,
            indirect: false,
            query_resolve: false,
        }
    }

    /// The usages of either operand.
    pub open spec fn or(self, other: Self) -> Self {
        BufferUsages {
            map_read: self.map_read || other.map_read,
            map_write: self.map_write || other.map_write,
            copy_src: self.copy_src || other.copy_src,
            copy_dst: self.copy_dst || other.copy_dst,
            index: self.index || other.index,
            vertex: self.vertex || other.vertex,
            uniform: self.uniform || other.uniform,
            storage: self.storage || other.storage,
            indirect: self.indirect || other.indirect,
            query_resolve: self.query_resolve || other.query_resolve,
        }
    }

    pub fn empty() -> (r: Self)
        ensures
            r == Self::none(),
    {
        BufferUsages {
            map_read: false,
            map_write: false,
            copy_src: false,
            copy_dst: false,
            index: false,
            vertex: false,
            uniform: false,
            storage: false,
            indirect: false,
            query_resolve: false,
        }
    }

    pub fn vertex() -> (r: Self)
        ensures
            r == (BufferUsages { vertex: true, ..Self::none() }),
    {
        let mut r = Self::empty();
        r.vertex = true;
        r
    }

    pub fn index() -> (r: Self)
        ensures
            r == (BufferUsages { index: true, ..Self::none() }),
    {
        let mut r = Self::empty();
        r.index = true;
        r
    }

    pub fn uniform() -> (r: Self)
        ensures
            r == (BufferUsages { uniform: true, ..Self::none() }),
    {
        let mut r = Self::empty();
        r.uniform = true;
        r
    }

    pub fn copy_dst() -> (r: Self)
        ensures
            r == (BufferUsages { copy_dst: true, ..Self::none() }),
    {
        let mut r = Self::empty();
        r.copy_dst = true;
        r
    }

    pub fn union(self, other: Self) -> (r: Self)
        ensures
            r == self.or(other),
    {
        BufferUsages {
            map_read: self.map_read || other.map_read,
            map_write: self.map_write || other.map_write,
            copy_src: self.copy_src || other.copy_src,
            copy_dst: self.copy_dst || other.copy_dst,
            index: self.index || other.index,
            vertex: self.vertex || other.vertex,
            uniform: self.uniform || other.uniform,
            storage: self.storage || other.storage,
            indirect: self.indirect || other.indirect,
            query_resolve: self.query_resolve || other.query_resolve,
        }
    }
}

/// What a texture may be used for.
#[derive(Clone, Copy, Debug, PartialEq, Eq, Structural)]
pub struct TextureUsages {
    pub copy_src: bool,
    pub copy_dst: bool,
    pub texture_binding: bool,
    pub storage_binding: bool,
    pub render_attachment: bool,
}

impl TextureUsages {
    pub open spec fn none() -> Self {
        TextureUsages {
            copy_src: false,
            copy_dst: false,
            texture_binding: false,
            storage_binding: false,
            render_attachment: false,
        }
    }

    /// The usages of either operand.
    pub open spec fn or(self, other: Self) -> Self {
        TextureUsages {
            copy_src: self.copy_src || other.copy_src,
            copy_dst: self.copy_dst || other.copy_dst,
            texture_binding: self.texture_binding || other.texture_binding,
            storage_binding: self.storage_binding || other.storage_binding,
            render_attachment: self.render_attachment || other.render_attachment,
        }
    }

    pub fn empty() -> (r: Self)
        ensures
            r == Self::none(),
    {
        TextureUsages {
            copy_src: false,
            copy_dst: false,
            texture_binding: false,
            storage_binding: false,
            render_attachment: false,
        }
    }

    pub fn render_attachment() -> (r: Self)
        ensures
            r == (TextureUsages { render_attachment: true, ..Self::none() }),
    {
        let mut r = Self::empty();
        r.render_attachment = true;
        r
    }

    pub fn texture_binding() -> (r: Self)
        ensures
            r == (TextureUsages { texture_binding: true, ..Self::none() }),
    {
        let mut r = Self::empty();
        r.texture_binding = true;
        r
    }

    pub fn union(self, other: Self) -> (r: Self)
        ensures
            r == self.or(other),
    {
        TextureUsages {
            copy_src: self.copy_src || other.copy_src,
            copy_dst: self.copy_dst || other.copy_dst,
            texture_binding: self.texture_binding || other.texture_binding,
            storage_binding: self.storage_binding || other.storage_binding,
            render_attachment: self.render_attachment || other.render_attachment,
        }
    }
}

/// The shader stages that can see a binding.
#[derive(Clone, Copy, Debug, PartialEq, Eq, Structural)]
pub struct ShaderStages {
    pub vertex: bool,
    pub fragment: bool,
    pub compute: bool,
}

impl ShaderStages {
    pub fn vertex() -> (r: Self)
        ensures
            r == (ShaderStages { vertex: true, fragment: false, compute: false }),
    {
        ShaderStages { vertex: true, fragment: false, compute: false }
    }

    pub fn fragment() -> (r: Self)
        ensures
            r == (ShaderStages { vertex: false, fragment: true, compute: false }),
    {
        ShaderStages { vertex: false, fragment: true, compute: false }
    }
}

/// What kind of buffer a slot accepts.
#[derive(Clone, Copy, Debug, PartialEq, Eq, Structural)]
pub enum BufferBindingType {
    Uniform,
    Storage { read_only: bool },
}

/// What a shader reads from a bound texture.
#[derive(Clone, Copy, Debug, PartialEq, Eq, Structural)]
pub enum TextureSampleType {
    Float { filterable: bool },
    Depth,
    Sint,
    Uint,
}

/// The shape of a bound texture view.
#[derive(Clone, Copy, Debug, PartialEq, Eq, Structural)]
pub enum TextureViewDimension {
    D1,
    D2,
    D2Array,
    Cube,
    CubeArray,
    D3,
}

/// What kind of sampler a slot accepts.
#[derive(Clone, Copy, Debug, PartialEq, Eq, Structural)]
pub enum SamplerBindingType {
    Filtering,
    NonFiltering,
    Comparison,
}

/// What a slot of a binding-group layout accepts.
#[derive(Clone, Copy, Debug, PartialEq, Eq, Structural)]
pub enum BindingType {
    Buffer { ty: BufferBindingType, has_dynamic_offset: bool, min_binding_size: Option<u64> },
    Sampler(SamplerBindingType),
    Texture {
        sample_type: TextureSampleType,
        view_dimension: TextureViewDimension,
        multisampled: bool,
    },
}

/// The three kinds of resource that a slot can hold.
#[derive(Clone, Copy, Debug, PartialEq, Eq, Structural)]
pub enum BindingKind {
    Buffer,
    Sampler,
    Texture,
}

impl BindingType {
    pub open spec fn kind_spec(self) -> BindingKind {
        match self {
            BindingType::Buffer { .. } => BindingKind::Buffer,
            BindingType::Sampler(_) => BindingKind::Sampler,
            BindingType::Texture { .. } => BindingKind::Texture,
        }
    }

    pub fn kind(&self) -> (r: BindingKind)
        ensures
            r == self.kind_spec(),
    {
        match self {
            BindingType::Buffer { .. } => BindingKind::Buffer,
            BindingType::Sampler(_) => BindingKind::Sampler,
            BindingType::Texture { .. } => BindingKind::Texture,
        }
    }
}

/// A resource bound to a slot, by its handle in the store of its kind.
#[derive(Clone, Copy, Debug, PartialEq, Eq, Structural)]
pub enum BindingResource {
    Buffer(usize),
    Sampler(usize),
    TextureView(usize),
}

impl BindingResource {
    pub open spec fn kind_spec(self) -> BindingKind {
        match self {
            BindingResource::Buffer(_) => BindingKind::Buffer,
            BindingResource::Sampler(_) => BindingKind::Sampler,
            BindingResource::TextureView(_) => BindingKind::Texture,
        }
    }

    pub fn kind(&self) -> (r: BindingKind)
        ensures
            r == self.kind_spec(),
    {
        match self {
            BindingResource::Buffer(_) => BindingKind::Buffer,
            BindingResource::Sampler(_) => BindingKind::Sampler,
            BindingResource::TextureView(_) => BindingKind::Texture,
        }
    }
}

/// The colour target of a pipeline.
#[derive(Clone, Copy, Debug, PartialEq, Eq, Structural)]
pub struct ColorTargetState {
    pub format: TextureFormat,
    pub blend: Option<BlendState>,
    pub write_red: bool,
    pub write_green: bool,
    pub write_blue: bool,
    pub write_alpha: bool,
}

/// The depth target of a pipeline; stencil and bias stay at their defaults.
#[derive(Clone, Copy, Debug, PartialEq, Eq, Structural)]
pub struct DepthStencilState {
    pub format: TextureFormat,
    pub depth_write_enabled: bool,
    pub depth_compare: CompareFunction,
}

} // verus!
