use vstd::prelude::*;

verus! {

/// Bit pattern of the single-precision value 0.
pub const ZERO: u32 = 0;

/// Bit pattern of the single-precision value 1.
pub const ONE: u32 = 0x3F80_0000;

/// Bit pattern of the single-precision value -1.
pub const NEG_ONE: u32 = 0xBF80_0000;

/// Bit pattern of the single-precision value 9.
pub const NINE: u32 = 0x4110_0000;

/// Bytes that one vertex takes in a vertex buffer.
pub const VERTEX_STRIDE: u64 = 32;

/// Offset of the normal within a vertex, in bytes.
pub const NORMAL_OFFSET: u64 = 12;

/// Offset of the texture coordinate within a vertex, in bytes.
pub const UV_OFFSET: u64 = 24;

/// One vertex of a mesh. Each component is a single-precision number, held
/// here by its IEEE-754 bit pattern.
#[derive(Clone, Copy, Debug, PartialEq, Eq)]
pub struct Vertex {
    pub position: [u32; 3],
    pub normal: [u32; 3],
    pub uv: [u32; 2],
}

/// The shape of one vertex attribute: two or three single-precision numbers.
#[derive(Clone, Copy, Debug, PartialEq, Eq, Structural)]
pub enum VertexFormat {
    Float32x2,
    Float32x3,
}

/// Whether a vertex buffer advances with every vertex or every instance.
#[derive(Clone, Copy, Debug, PartialEq, Eq, Structural)]
pub enum VertexStepMode {
    Vertex,
    Instance,
}

/// One attribute of a vertex: where it starts, where the shader finds it,
/// and its shape.
#[derive(Clone, Copy, Debug, PartialEq, Eq, Structural)]
pub struct VertexAttribute {
    pub offset: u64,
    pub shader_location: u32,
    pub format: VertexFormat,
}

/// How a vertex buffer is cut into vertices and attributes.
#[derive(Debug)]
pub struct VertexBufferLayout {
    pub array_stride: u64,
    pub step_mode: VertexStepMode,
    pub attributes: Vec<VertexAttribute>,
}

/// The attributes of the canonical vertex: position, normal, texture
/// coordinate, at shader locations 0, 1 and 2.
pub open spec fn canonical_attributes() -> Seq<VertexAttribute> {
    seq![
        VertexAttribute { offset: 0, shader_location: 0, format: VertexFormat::Float32x3 },
        VertexAttribute { offset: 12, shader_location: 1, format: VertexFormat::Float32x3 },
        VertexAttribute { offset: 24, shader_location: 2, format: VertexFormat::Float32x2 },
    ]
}

impl Vertex {
    /// The eight components in buffer order.
    pub open spec fn words(self) -> Seq<u32> {
        seq![
            self.position[0],
            self.position[1],
            self.position[2],
            self.normal[0],
            self.normal[1],
            self.normal[2],
            self.uv[0],
            self.uv[1],
        ]
    }

    pub fn new(px: u32, py: u32, pz: u32, nx: u32, ny: u32, nz: u32, u: u32, v: u32) -> (r: Self)
        ensures
            r == vertex(px, py, pz, nx, ny, nz, u, v),
    {
        Vertex { position: [px, py, pz], normal: [nx, ny, nz], uv: [u, v] }
    }

    /// The layout of the canonical vertex: 32 bytes to a vertex, position at
    /// offset 0, normal at 12, texture coordinate at 24.
    pub fn buffer_layout() -> (r: VertexBufferLayout)
        ensures
            r.array_stride == 32,
            r.step_mode == VertexStepMode::Vertex,
            r.attributes@ == canonical_attributes(),
    {
        let mut attributes: Vec<VertexAttribute> = Vec::new();
        attributes.push(
            VertexAttribute { offset: 0, shader_location: 0, format: VertexFormat::Float32x3 },
        );
        attributes.push(
            VertexAttribute {
                offset: NORMAL_OFFSET,
                shader_location: 1,
                format: VertexFormat::Float32x3,
            },
        );
        attributes.push(
            VertexAttribute {
                offset: UV_OFFSET,
                shader_location: 2,
                format: VertexFormat::Float32x2,
            },
        );
        assert(attributes@ =~= canonical_attributes());
        VertexBufferLayout {
            array_stride: VERTEX_STRIDE,
            step_mode: VertexStepMode::Vertex,
            attributes,
        }
    }
}

/// The components of all vertices, one after the other.
pub open spec fn flat_words(vertices: Seq<Vertex>) -> Seq<u32> {
    Seq::new(8 * vertices.len(), |i: int| vertices[i / 8].words()[i % 8])
}

/// Each 16-bit value as two bytes, low byte first.
pub open spec fn le_bytes16(values: Seq<u16>) -> Seq<u8> {
    Seq::new(
        2 * values.len(),
        |i: int|
            if i % 2 == 0 {
                (values[i / 2] % 256) as u8
            } else {
                (values[i / 2] / 256) as u8
            },
    )
}

/// Each 16-bit value as two bytes, high byte first.
pub open spec fn be_bytes16(values: Seq<u16>) -> Seq<u8> {
    Seq::new(
        2 * values.len(),
        |i: int|
            if i % 2 == 0 {
                (values[i / 2] / 256) as u8
            } else {
                (values[i / 2] % 256) as u8
            },
    )
}

/// Byte `k` of a 32-bit value, counted from the low end.
pub open spec fn byte_of(value: u32, k: int) -> u8 {
    if k == 0 {
        (value % 256) as u8
    } else if k == 1 {
        ((value / 256) % 256) as u8
    } else if k == 2 {
        ((value / 65536) % 256) as u8
    } else {
        (value / 16777216) as u8
    }
}

/// Each 32-bit value as four bytes, low byte first.
pub open spec fn le_bytes32(values: Seq<u32>) -> Seq<u8> {
    Seq::new(4 * values.len(), |i: int| byte_of(values[i / 4], i % 4))
}

/// Each 32-bit value as four bytes, high byte first.
pub open spec fn be_bytes32(values: Seq<u32>) -> Seq<u8> {
    Seq::new(4 * values.len(), |i: int| byte_of(values[i / 4], 3 - i % 4))
}

/// Whether `bytes` is how this machine lays `values` out in memory.
pub open spec fn encodes16(bytes: Seq<u8>, values: Seq<u16>) -> bool {
    bytes == le_bytes16(values) || bytes == be_bytes16(values)
}

/// Whether `bytes` is how this machine lays `values` out in memory.
pub open spec fn encodes32(bytes: Seq<u8>, values: Seq<u32>) -> bool {
    bytes == le_bytes32(values) || bytes == be_bytes32(values)
}

/// Copies what `bytemuck::cast_slice` gives for a slice of 16-bit values
/// viewed as bytes. Claimed of it: the cast never fails for this pair of
/// types, and the bytes are the values in memory order, which is low byte
/// first or high byte first according to the machine.
#[verifier::external_body]
fn cast_indices(values: &[u16]) -> (r: Vec<u8>)
    ensures
        encodes16(r@, values@),
{
    let bytes: &[u8] = bytemuck::cast_slice(values);
    bytes.to_vec()
}

/// Copies what `bytemuck::cast_slice` gives for a slice of 32-bit values
/// viewed as bytes. Claimed of it: the cast never fails for this pair of
/// types, and the bytes are the values in memory order, which is low byte
/// first or high byte first according to the machine.
#[verifier::external_body]
fn cast_words(values: &[u32]) -> (r: Vec<u8>)
    ensures
        encodes32(r@, values@),
{
    let bytes: &[u8] = bytemuck::cast_slice(values);
    bytes.to_vec()
}

/// The contents of an index buffer that holds `indices`.
pub fn index_bytes(indices: &[u16]) -> (r: Vec<u8>)
    ensures
        r@.len() == 2 * indices@.len(),
        encodes16(r@, indices@),
{
    cast_indices(indices)
}

/// The contents of a buffer that holds `words`.
pub fn word_bytes(words: &[u32]) -> (r: Vec<u8>)
    ensures
        r@.len() == 4 * words@.len(),
        encodes32(r@, words@),
{
    cast_words(words)
}

/// The contents of a vertex buffer that holds `vertices`: 32 bytes for each,
/// position first, then normal, then texture coordinate.
pub fn vertex_bytes(vertices: &[Vertex]) -> (r: Vec<u8>)
    ensures
        r@.len() == 32 * vertices@.len(),
        encodes32(r@, flat_words(vertices@)),
{
    let mut words: Vec<u32> = Vec::new();
    let mut i: usize = 0;
    while i < vertices.len()
        invariant
            i <= vertices@.len(),
            words@ == flat_words(vertices@.subrange(0, i as int)),
        decreases vertices@.len() - i,
    {
        let v = vertices[i];
        let ghost before = words@;
        words.push(v.position[0]);
        words.push(v.position[1]);
        words.push(v.position[2]);
        words.push(v.normal[0]);
        words.push(v.normal[1]);
        words.push(v.normal[2]);
        words.push(v.uv[0]);
        words.push(v.uv[1]);
        proof {
            let prev = vertices@.subrange(0, i as int);
            let next = vertices@.subrange(0, i + 1);
            assert(words@ =~= before + v.words());
            assert forall|k: int| 0 <= k < 8 * next.len() implies (before + v.words())[k]
                == #[trigger] flat_words(next)[k] by {
                if k < 8 * i {
                    assert(next[k / 8] == prev[k / 8]);
                } else {
                    assert(k / 8 == i);
                    assert(next[k / 8] == v);
                    assert(k % 8 == k - 8 * i);
                }
            }
            assert(before + v.words() =~= flat_words(next));
        }
        i += 1;
    }
    assert(vertices@.subrange(0, i as int) =~= vertices@);
    word_bytes(words.as_slice())
}

/// The vertex with the given position, normal and texture coordinate.
pub open spec fn vertex(px: u32, py: u32, pz: u32, nx: u32, ny: u32, nz: u32, u: u32, v: u32) -> Vertex {
    Vertex { position: [px, py, pz], normal: [nx, ny, nz], uv: [u, v] }
}

/// The four corners of the quad that covers the screen.
pub open spec fn square_vertices_spec() -> Seq<Vertex> {
    seq![
        vertex(NEG_ONE, NEG_ONE, ONE, ZERO, ZERO, ONE, ZERO, ONE),
        vertex(ONE, NEG_ONE, ONE, ZERO, ZERO, ONE, ONE, ONE),
        vertex(ONE, ONE, ONE, ZERO, ZERO, ONE, ONE, ZERO),
        vertex(NEG_ONE, ONE, ONE, ZERO, ZERO, ONE, ZERO, ZERO),
    ]
}

/// The four corners of the quad that covers the screen.
pub fn square_vertices() -> (r: Vec<Vertex>)
    ensures
        r@ == square_vertices_spec(),
{
    let mut r: Vec<Vertex> = Vec::new();
    r.push(Vertex::new(NEG_ONE, NEG_ONE, ONE, ZERO, ZERO, ONE, ZERO, ONE));
    r.push(Vertex::new(ONE, NEG_ONE, ONE, ZERO, ZERO, ONE, ONE, ONE));
    r.push(Vertex::new(ONE, ONE, ONE, ZERO, ZERO, ONE, ONE, ZERO));
    r.push(Vertex::new(NEG_ONE, ONE, ONE, ZERO, ZERO, ONE, ZERO, ZERO));
    assert(r@ =~= square_vertices_spec());
    r
}

/// The two triangles of the quad.
pub open spec fn square_indices_spec() -> Seq<u16> {
    seq![0, 1, 2, 2, 3, 0]
}

/// The two triangles of the quad. Every index names one of the 4 vertices.
pub fn square_indices() -> (r: Vec<u16>)
    ensures
        r@ == square_indices_spec(),
        r@.len() == 6,
        forall|i: int| 0 <= i < r@.len() ==> (#[trigger] r@[i]) < 4,
{
    let mut r: Vec<u16> = Vec::new();
    r.push(0);
    r.push(1);
    r.push(2);
    r.push(2);
    r.push(3);
    r.push(0);
    assert(r@ =~= square_indices_spec());
    r
}

/// The cube of side two about the origin, four vertices to a face.
pub open spec fn cube_vertices_spec() -> Seq<Vertex> {
    seq![
        vertex(NEG_ONE, NEG_ONE, ONE, ZERO, ZERO, ONE, ZERO, ZERO),
        vertex(ONE, NEG_ONE, ONE, ZERO, ZERO, ONE, ONE, ZERO),
        vertex(ONE, ONE, ONE, ZERO, ZERO, ONE, ONE, ONE),
        vertex(NEG_ONE, ONE, ONE, ZERO, ZERO, ONE, ZERO, ONE),
        vertex(ONE, NEG_ONE, NEG_ONE, ZERO, ZERO, NEG_ONE, NINE, NINE),
        vertex(NEG_ONE, NEG_ONE, NEG_ONE, ZERO, ZERO, NEG_ONE, NINE, NINE),
        vertex(NEG_ONE, ONE, NEG_ONE, ZERO, ZERO, NEG_ONE, NINE, NINE),
        vertex(ONE, ONE, NEG_ONE, ZERO, ZERO, NEG_ONE, NINE, NINE),
        vertex(NEG_ONE, ONE, ONE, NEG_ONE, ZERO, ZERO, NINE, NINE),
        vertex(NEG_ONE, ONE, NEG_ONE, NEG_ONE, ZERO, ZERO, NINE, NINE),
        vertex(NEG_ONE, NEG_ONE, NEG_ONE, NEG_ONE, ZERO, ZERO, NINE, NINE),
        vertex(NEG_ONE, NEG_ONE, ONE, NEG_ONE, ZERO, ZERO, NINE, NINE),
        vertex(ONE, ONE, NEG_ONE, ONE, ZERO, ZERO, NINE, NINE),
        vertex(ONE, ONE, ONE, ONE, ZERO, ZERO, NINE, NINE),
        vertex(ONE, NEG_ONE, ONE, ONE, ZERO, ZERO, NINE, NINE),
        vertex(ONE, NEG_ONE, NEG_ONE, ONE, ZERO, ZERO, NINE, NINE),
        vertex(NEG_ONE, ONE, ONE, ZERO, ONE, ZERO, NINE, NINE),
        vertex(ONE, ONE, ONE, ZERO, ONE, ZERO, NINE, NINE),
        vertex(ONE, ONE, NEG_ONE, ZERO, ONE, ZERO, NINE, NINE),
        vertex(NEG_ONE, ONE, NEG_ONE, ZERO, ONE, ZERO, NINE, NINE),
        vertex(NEG_ONE, NEG_ONE, NEG_ONE, ZERO, NEG_ONE, ZERO, NINE, NINE),
        vertex(ONE, NEG_ONE, NEG_ONE, ZERO, NEG_ONE, ZERO, NINE, NINE),
        vertex(ONE, NEG_ONE, ONE, ZERO, NEG_ONE, ZERO, NINE, NINE),
        vertex(NEG_ONE, NEG_ONE, ONE, ZERO, NEG_ONE, ZERO, NINE, NINE),
    ]
}

/// The cube of side two about the origin, four vertices to a face.
pub fn cube_vertices() -> (r: Vec<Vertex>)
    ensures
        r@ == cube_vertices_spec(),
{
    let mut r: Vec<Vertex> = Vec::new();
    r.push(Vertex::new(NEG_ONE, NEG_ONE, ONE, ZERO, ZERO, ONE, ZERO, ZERO));
    r.push(Vertex::new(ONE, NEG_ONE, ONE, ZERO, ZERO, ONE, ONE, ZERO));
    r.push(Vertex::new(ONE, ONE, ONE, ZERO, ZERO, ONE, ONE, ONE));
    r.push(Vertex::new(NEG_ONE, ONE, ONE, ZERO, ZERO, ONE, ZERO, ONE));
    r.push(Vertex::new(ONE, NEG_ONE, NEG_ONE, ZERO, ZERO, NEG_ONE, NINE, NINE));
    r.push(Vertex::new(NEG_ONE, NEG_ONE, NEG_ONE, ZERO, ZERO, NEG_ONE, NINE, NINE));
    r.push(Vertex::new(NEG_ONE, ONE, NEG_ONE, ZERO, ZERO, NEG_ONE, NINE, NINE));
    r.push(Vertex::new(ONE, ONE, NEG_ONE, ZERO, ZERO, NEG_ONE, NINE, NINE));
    r.push(Vertex::new(NEG_ONE, ONE, ONE, NEG_ONE, ZERO, ZERO, NINE, NINE));
    r.push(Vertex::new(NEG_ONE, ONE, NEG_ONE, NEG_ONE, ZERO, ZERO, NINE, NINE));
    r.push(Vertex::new(NEG_ONE, NEG_ONE, NEG_ONE, NEG_ONE, ZERO, ZERO, NINE, NINE));
    r.push(Vertex::new(NEG_ONE, NEG_ONE, ONE, NEG_ONE, ZERO, ZERO, NINE, NINE));
    r.push(Vertex::new(ONE, ONE, NEG_ONE, ONE, ZERO, ZERO, NINE, NINE));
    r.push(Vertex::new(ONE, ONE, ONE, ONE, ZERO, ZERO, NINE, NINE));
    r.push(Vertex::new(ONE, NEG_ONE, ONE, ONE, ZERO, ZERO, NINE, NINE));
    r.push(Vertex::new(ONE, NEG_ONE, NEG_ONE, ONE, ZERO, ZERO, NINE, NINE));
    r.push(Vertex::new(NEG_ONE, ONE, ONE, ZERO, ONE, ZERO, NINE, NINE));
    r.push(Vertex::new(ONE, ONE, ONE, ZERO, ONE, ZERO, NINE, NINE));
    r.push(Vertex::new(ONE, ONE, NEG_ONE, ZERO, ONE, ZERO, NINE, NINE));
    r.push(Vertex::new(NEG_ONE, ONE, NEG_ONE, ZERO, ONE, ZERO, NINE, NINE));
    r.push(Vertex::new(NEG_ONE, NEG_ONE, NEG_ONE, ZERO, NEG_ONE, ZERO, NINE, NINE));
    r.push(Vertex::new(ONE, NEG_ONE, NEG_ONE, ZERO, NEG_ONE, ZERO, NINE, NINE));
    r.push(Vertex::new(ONE, NEG_ONE, ONE, ZERO, NEG_ONE, ZERO, NINE, NINE));
    r.push(Vertex::new(NEG_ONE, NEG_ONE, ONE, ZERO, NEG_ONE, ZERO, NINE, NINE));
    assert(r@ =~= cube_vertices_spec());
    r
}

/// The twelve triangles of the cube.
pub open spec fn cube_indices_spec() -> Seq<u16> {
    seq![
        0, 1, 2, 2, 3, 0, 4, 5, 6, 6, 7, 4, 8, 9, 10, 10, 11, 8, 12, 13, 14, 14, 15, 12, 16, 17,
        18, 18, 19, 16, 20, 21, 22, 22, 23, 20,
    ]
}

/// The twelve triangles of the cube. Every index names one of the 24 vertices.
pub fn cube_indices() -> (r: Vec<u16>)
    ensures
        r@ == cube_indices_spec(),
        r@.len() == 36,
        forall|i: int| 0 <= i < r@.len() ==> (#[trigger] r@[i]) < 24,
{
    let mut r: Vec<u16> = Vec::new();
    r.push(0);
    r.push(1);
    r.push(2);
    r.push(2);
    r.push(3);
    r.push(0);
    r.push(4);
    r.push(5);
    r.push(6);
    r.push(6);
    r.push(7);
    r.push(4);
    r.push(8);
    r.push(9);
    r.push(10);
    r.push(10);
    r.push(11);
    r.push(8);
    r.push(12);
    r.push(13);
    r.push(14);
    r.push(14);
    r.push(15);
    r.push(12);
    r.push(16);
    r.push(17);
    r.push(18);
    r.push(18);
    r.push(19);
    r.push(16);
    r.push(20);
    r.push(21);
    r.push(22);
    r.push(22);
    r.push(23);
    r.push(20);
    assert(r@ =~= cube_indices_spec());
    r
}

} // verus!
