use render_core::math::TransformUniform;
use render_core::resource::TextureFormat;
use render_core::vertex_input::{
    cube_indices, cube_vertices, index_bytes, square_indices, square_vertices, vertex_bytes,
    word_bytes, Vertex, VertexFormat, VertexStepMode, NEG_ONE, NINE, ONE, ZERO,
};

fn native16(values: &[u16]) -> Vec<u8> {
    let mut out = Vec::new();
    for v in values {
        out.extend_from_slice(&v.to_ne_bytes());
    }
    out
}

fn native32(values: &[u32]) -> Vec<u8> {
    let mut out = Vec::new();
    for v in values {
        out.extend_from_slice(&v.to_ne_bytes());
    }
    out
}

#[test]
fn bit_patterns_are_those_of_the_numbers() {
    assert_eq!(ZERO, 0.0f32.to_bits());
    assert_eq!(ONE, 1.0f32.to_bits());
    assert_eq!(NEG_ONE, (-1.0f32).to_bits());
    assert_eq!(NINE, 9.0f32.to_bits());
}

#[test]
fn canonical_layout_has_stride_32_and_offsets_0_12_24() {
    let layout = Vertex::buffer_layout();
    assert_eq!(layout.array_stride, 32);
    assert_eq!(layout.step_mode, VertexStepMode::Vertex);
    assert_eq!(layout.attributes.len(), 3);
    assert_eq!(layout.attributes[0].offset, 0);
    assert_eq!(layout.attributes[0].shader_location, 0);
    assert_eq!(layout.attributes[0].format, VertexFormat::Float32x3);
    assert_eq!(layout.attributes[1].offset, 12);
    assert_eq!(layout.attributes[1].shader_location, 1);
    assert_eq!(layout.attributes[1].format, VertexFormat::Float32x3);
    assert_eq!(layout.attributes[2].offset, 24);
    assert_eq!(layout.attributes[2].shader_location, 2);
    assert_eq!(layout.attributes[2].format, VertexFormat::Float32x2);
}

#[test]
fn index_bytes_are_the_indices_in_memory_order() {
    let indices: Vec<u16> = vec![0, 1, 2, 2, 3, 0, 0x1234];
    let bytes = index_bytes(&indices);
    assert_eq!(bytes.len(), 14);
    assert_eq!(bytes, native16(&indices));
    assert_eq!(index_bytes(&[]), Vec::<u8>::new());
}

#[test]
fn word_bytes_are_the_words_in_memory_order() {
    let words: Vec<u32> = vec![ONE, NEG_ONE, 0x0102_0304];
    let bytes = word_bytes(&words);
    assert_eq!(bytes.len(), 12);
    assert_eq!(bytes, native32(&words));
}

#[test]
fn vertex_bytes_take_32_bytes_for_each_vertex() {
    let vertices = square_vertices();
    let bytes = vertex_bytes(&vertices);
    assert_eq!(bytes.len(), 4 * 32);
    let first = native32(&[NEG_ONE, NEG_ONE, ONE, ZERO, ZERO, ONE, ZERO, ONE]);
    assert_eq!(&bytes[0..32], &first[..]);
    let last = native32(&[NEG_ONE, ONE, ONE, ZERO, ZERO, ONE, ZERO, ZERO]);
    assert_eq!(&bytes[96..128], &last[..]);
    assert_eq!(vertex_bytes(&[]), Vec::<u8>::new());
}

#[test]
fn quad_has_four_vertices_and_six_indices() {
    let vertices = square_vertices();
    let indices = square_indices();
    assert_eq!(vertices.len(), 4);
    assert_eq!(indices, vec![0, 1, 2, 2, 3, 0]);
    assert_eq!(vertices[0], Vertex::new(NEG_ONE, NEG_ONE, ONE, ZERO, ZERO, ONE, ZERO, ONE));
    assert_eq!(vertices[1], Vertex::new(ONE, NEG_ONE, ONE, ZERO, ZERO, ONE, ONE, ONE));
    assert_eq!(vertices[2], Vertex::new(ONE, ONE, ONE, ZERO, ZERO, ONE, ONE, ZERO));
    assert_eq!(vertices[3], Vertex::new(NEG_ONE, ONE, ONE, ZERO, ZERO, ONE, ZERO, ZERO));
}

#[test]
fn cube_has_24_vertices_and_36_indices_that_name_them() {
    let vertices = cube_vertices();
    let indices = cube_indices();
    assert_eq!(vertices.len(), 24);
    assert_eq!(indices.len(), 36);
    assert!(indices.iter().all(|i| (*i as usize) < vertices.len()));
    assert_eq!(&indices[0..6], &[0, 1, 2, 2, 3, 0]);
    assert_eq!(&indices[30..36], &[20, 21, 22, 22, 23, 20]);
    assert_eq!(vertices[4], Vertex::new(ONE, NEG_ONE, NEG_ONE, ZERO, ZERO, NEG_ONE, NINE, NINE));
    assert_eq!(vertices[23], Vertex::new(NEG_ONE, NEG_ONE, ONE, ZERO, NEG_ONE, ZERO, NINE, NINE));
}

#[test]
fn uniform_words_go_column_by_column() {
    let uniform = TransformUniform {
        transform: [[1, 2, 3, 4], [5, 6, 7, 8], [9, 10, 11, 12], [13, 14, 15, 16]],
    };
    assert_eq!(uniform.to_words(), (1..=16).collect::<Vec<u32>>());
}

#[test]
fn srgb_formats_are_the_two_with_the_suffix() {
    assert!(TextureFormat::Rgba8UnormSrgb.is_srgb());
    assert!(TextureFormat::Bgra8UnormSrgb.is_srgb());
    assert!(!TextureFormat::Rgba8Unorm.is_srgb());
    assert!(!TextureFormat::Bgra8Unorm.is_srgb());
    assert!(!TextureFormat::Rgb10a2Unorm.is_srgb());
    assert!(!TextureFormat::Rgba8Snorm.is_srgb());
    assert!(!TextureFormat::Rgba16Unorm.is_srgb());
    assert!(!TextureFormat::Rgba16Snorm.is_srgb());
    assert!(!TextureFormat::Rgba16Float.is_srgb());
    assert!(!TextureFormat::Rgba32Float.is_srgb());
    assert!(!TextureFormat::Depth24Plus.is_srgb());
    assert!(!TextureFormat::Depth32Float.is_srgb());
    assert!(TextureFormat::Depth32Float.is_depth());
    assert!(TextureFormat::Depth24Plus.is_depth());
    assert!(!TextureFormat::Rgba32Float.is_depth());
}
