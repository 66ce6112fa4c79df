use render_core::registry::{Category, LookupError, ResourceMap};

#[test]
fn insert_then_get_returns_what_was_inserted() {
    let mut map: ResourceMap<u32> = ResourceMap::new();
    assert_eq!(map.insert("a", 7), Some(0));
    assert_eq!(map.insert("b", 9), Some(1));
    assert_eq!(map.get("a"), Some(&7));
    assert_eq!(map.get("b"), Some(&9));
    assert_eq!(map.find("b"), Some(1));
    assert_eq!(map.get_at(1), Some(&9));
    assert_eq!(map.label_at(0), Some("a"));
    assert_eq!(map.len(), 2);
}

#[test]
fn insert_refuses_a_label_that_is_taken() {
    let mut map: ResourceMap<u32> = ResourceMap::new();
    assert_eq!(map.insert("a", 7), Some(0));
    assert_eq!(map.insert("a", 8), None);
    assert_eq!(map.get("a"), Some(&7));
    assert_eq!(map.len(), 1);
}

#[test]
fn lookup_of_a_label_that_was_never_inserted_finds_nothing() {
    let mut map: ResourceMap<u32> = ResourceMap::new();
    assert_eq!(map.get("a"), None);
    assert_eq!(map.find("a"), None);
    assert!(!map.contains("a"));
    map.insert("a", 1);
    assert!(map.contains("a"));
    assert_eq!(map.get("A"), None);
    assert_eq!(map.get(""), None);
    assert_eq!(map.get_at(1), None);
    assert_eq!(map.label_at(1), None);
}

#[test]
fn empty_label_is_a_label_like_any_other() {
    let mut map: ResourceMap<u32> = ResourceMap::new();
    assert_eq!(map.insert("", 3), Some(0));
    assert_eq!(map.get(""), Some(&3));
    assert_eq!(map.insert("", 4), None);
}

#[test]
fn lookup_error_names_label_and_store() {
    let e = LookupError::new("quad", Category::Buffer);
    assert_eq!(e.label, "quad");
    assert_eq!(e.category, Category::Buffer);
    assert_eq!(e.message(), "Failed to get quad from ctx.buffers!");
}

#[test]
fn every_store_has_its_own_name() {
    assert_eq!(Category::Buffer.name(), "buffers");
    assert_eq!(Category::Shader.name(), "shaders");
    assert_eq!(Category::Texture.name(), "textures");
    assert_eq!(Category::TextureView.name(), "texture_views");
    assert_eq!(Category::Sampler.name(), "samplers");
    assert_eq!(Category::BindGroupLayout.name(), "bind_group_layouts");
    assert_eq!(Category::BindGroup.name(), "bind_groups");
    assert_eq!(Category::RenderPipeline.name(), "render_pipelines");
    let e = LookupError::new("screen_quad_pipeline", Category::RenderPipeline);
    assert_eq!(e.message(), "Failed to get screen_quad_pipeline from ctx.render_pipelines!");
}
