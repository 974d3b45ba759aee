use tracengine::camera::CameraType;
use tracengine::error::RenderError;
use tracengine::mesh::FaceDirection;
use tracengine::pipeline::PipelineKey;
use tracengine::types::{
    BufferUsages, Color, Padding, ShaderStages, SurfaceSize, TextureUsages,
    BUFFER_USAGE_COPY_DST, BUFFER_USAGE_VERTEX, SHADER_STAGE_COMPUTE, SHADER_STAGE_FRAGMENT,
    TEXTURE_USAGE_COPY_SRC, TEXTURE_USAGE_RENDER_ATTACHMENT,
};

#[test]
fn usage_bit_sets_combine_and_test() {
    let vertex = BufferUsages { bits: BUFFER_USAGE_VERTEX };
    let both = vertex.union(BufferUsages { bits: BUFFER_USAGE_COPY_DST });
    assert!(both.contains(vertex));
    assert!(both.contains(BufferUsages { bits: BUFFER_USAGE_COPY_DST }));
    assert!(!vertex.contains(both));

    let t = TextureUsages { bits: TEXTURE_USAGE_RENDER_ATTACHMENT };
    assert!(t.union(TextureUsages { bits: TEXTURE_USAGE_COPY_SRC }).contains(t));

    let s = ShaderStages { bits: SHADER_STAGE_COMPUTE };
    assert!(s.union(ShaderStages { bits: SHADER_STAGE_FRAGMENT }).contains(s));
}

#[test]
fn face_directions_carry_unit_normals() {
    assert_eq!(FaceDirection::Top.normal(), (0, 1, 0));
    assert_eq!(FaceDirection::Bottom.normal(), (0, -1, 0));
    assert_eq!(FaceDirection::Front.normal(), (0, 0, 1));
    assert_eq!(FaceDirection::Back.normal(), (0, 0, -1));
    assert_eq!(FaceDirection::Left.normal(), (-1, 0, 0));
    assert_eq!(FaceDirection::Right.normal(), (1, 0, 0));
}

#[test]
fn small_value_types_have_plain_defaults() {
    assert_eq!(Color::default(), Color::new(0, 0, 0));
    assert_eq!(Padding::default().fill, 0);
    assert_eq!(CameraType::default(), CameraType::FirstPerson);
    assert_ne!(PipelineKey::MainPipeline, PipelineKey::RtPipeline);
    assert_eq!(SurfaceSize::new(3, 4), SurfaceSize { width: 3, height: 4 });
}

#[test]
fn errors_describe_every_variant() {
    assert_eq!(
        RenderError::Lost.describe(),
        "the swap chain has been lost and needs to be recreated"
    );
    assert_eq!(
        RenderError::OutOfMemory.describe(),
        "there is no more memory left to allocate a new frame"
    );
    assert_eq!(
        RenderError::SurfaceError(String::from("timeout")).describe(),
        "error acquiring current texture"
    );
    assert_eq!(
        RenderError::SetupError(vec!["camera"]).describe(),
        "render components are not set up"
    );
    assert_eq!(RenderError::LoadVoxError("bad magic").describe(), "error loading vox file");
}
