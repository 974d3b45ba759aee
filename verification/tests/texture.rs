use tracengine::texture::{Texture, TextureDescriptor};
use tracengine::types::{
    FilterMode, SurfaceSize, TextureDimension, TextureFormat, TextureUsages,
    TEXTURE_USAGE_COPY_SRC, TEXTURE_USAGE_RENDER_ATTACHMENT, TEXTURE_USAGE_TEXTURE_BINDING,
};

fn descriptor() -> TextureDescriptor {
    TextureDescriptor {
        width: 800,
        height: 600,
        depth: None,
        filter: FilterMode::Linear,
        dimension: TextureDimension::D2,
        usage: TextureUsages { bits: TEXTURE_USAGE_RENDER_ATTACHMENT | TEXTURE_USAGE_COPY_SRC },
        format: TextureFormat::Bgra8UnormSrgb,
        label: "color",
    }
}

#[test]
fn new_texture_snapshots_its_descriptor() {
    let t = Texture::new(descriptor());
    assert_eq!(t.description().width, 800);
    assert_eq!(t.description().height, 600);
    assert_eq!(t.generation(), 0);
}

#[test]
fn resize_replaces_dimensions_and_preserves_the_rest() {
    let mut t = Texture::new(descriptor());
    t.resize(SurfaceSize::new(1024, 768));
    let d = t.description();
    assert_eq!(d.width, 1024);
    assert_eq!(d.height, 768);
    assert_eq!(d.depth, None);
    assert_eq!(d.filter, FilterMode::Linear);
    assert_eq!(d.dimension, TextureDimension::D2);
    assert_eq!(
        d.usage,
        TextureUsages { bits: TEXTURE_USAGE_RENDER_ATTACHMENT | TEXTURE_USAGE_COPY_SRC }
    );
    assert_eq!(d.format, TextureFormat::Bgra8UnormSrgb);
    assert_eq!(d.label, "color");
}

#[test]
fn resize_moves_to_a_new_generation_each_time() {
    let mut t = Texture::new(descriptor());
    t.resize(SurfaceSize::new(10, 10));
    assert_eq!(t.generation(), 1);
    t.resize(SurfaceSize::new(20, 20));
    assert_eq!(t.generation(), 2);
}

#[test]
fn render_attachment_usage_is_visible() {
    let t = Texture::new(descriptor());
    assert!(t.is_render_attachment());
    assert_eq!(t.render_target_view().generation, 0);

    let mut sampled = descriptor();
    sampled.usage = TextureUsages { bits: TEXTURE_USAGE_TEXTURE_BINDING };
    let t2 = Texture::new(sampled);
    assert!(!t2.is_render_attachment());
}

#[test]
fn depth_defaults_to_one_layer() {
    let t = Texture::new(descriptor());
    assert_eq!(t.description().depth_or(1), 1);
    let mut deep = descriptor();
    deep.depth = Some(64);
    assert_eq!(Texture::new(deep).description().depth_or(1), 64);
}
