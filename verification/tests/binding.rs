use tracengine::buffer::{Buffer, BufferBindingType, BufferResourceDescriptor};
use tracengine::pipeline::{
    BindingType, BoundResource, Pipeline, Shader, ShaderBinding, ShaderResource,
};
use tracengine::texture::{
    Texture, TextureDescriptor, TextureResourceDescriptor, TextureResourceUsage,
    TEXTURE_RESOURCE_SAMPLER, TEXTURE_RESOURCE_STORAGE, TEXTURE_RESOURCE_TEXTURE,
};
use tracengine::types::{
    BufferUsages, FilterMode, PrimitiveTopology, ShaderStages, SurfaceSize, TextureDimension,
    TextureFormat, TextureSampleType, TextureUsages, BUFFER_USAGE_STORAGE, BUFFER_USAGE_UNIFORM,
    SHADER_STAGE_COMPUTE, SHADER_STAGE_FRAGMENT, SHADER_STAGE_VERTEX, TEXTURE_USAGE_COPY_DST,
    TEXTURE_USAGE_TEXTURE_BINDING,
};

fn sampled_texture() -> Texture {
    Texture::new(TextureDescriptor {
        width: 64,
        height: 64,
        depth: None,
        filter: FilterMode::Linear,
        dimension: TextureDimension::D2,
        usage: TextureUsages { bits: TEXTURE_USAGE_TEXTURE_BINDING | TEXTURE_USAGE_COPY_DST },
        format: TextureFormat::Bgra8UnormSrgb,
        label: "history",
    })
}

#[test]
fn binding_indices_are_contiguous_from_zero() {
    let uniform: Buffer<u32> = Buffer::new(1, BufferUsages { bits: BUFFER_USAGE_UNIFORM });
    let storage: Buffer<u32> = Buffer::new(16, BufferUsages { bits: BUFFER_USAGE_STORAGE });
    let texture = sampled_texture();

    let resource = ShaderResource::builder()
        .add_buffer(
            &uniform,
            &BufferResourceDescriptor {
                visibility: ShaderStages { bits: SHADER_STAGE_VERTEX },
                buffer_type: BufferBindingType::Uniform,
            },
        )
        .add_texture(
            &texture,
            &TextureResourceDescriptor {
                usage: TextureResourceUsage {
                    bits: TEXTURE_RESOURCE_TEXTURE | TEXTURE_RESOURCE_SAMPLER,
                },
                sample_type: Some(TextureSampleType::Float { filterable: true }),
            },
        )
        .add_buffer(
            &storage,
            &BufferResourceDescriptor {
                visibility: ShaderStages { bits: SHADER_STAGE_COMPUTE },
                buffer_type: BufferBindingType::Storage { read_only: false },
            },
        )
        .build();

    // One slot for the first buffer, two for the two-aspect texture, one
    // for the second buffer: indices 0..4 with no gaps or duplicates.
    assert_eq!(resource.layout_entries.len(), 4);
    assert_eq!(resource.bind_entries.len(), 4);
    for (i, entry) in resource.layout_entries.iter().enumerate() {
        assert_eq!(entry.binding, i as u32);
    }
    for (i, entry) in resource.bind_entries.iter().enumerate() {
        assert_eq!(entry.binding, i as u32);
    }
}

#[test]
fn texture_aspects_take_slots_in_fixed_order() {
    let texture = sampled_texture();
    let resource = ShaderResource::builder()
        .add_texture(
            &texture,
            &TextureResourceDescriptor {
                usage: TextureResourceUsage {
                    bits: TEXTURE_RESOURCE_TEXTURE | TEXTURE_RESOURCE_SAMPLER
                        | TEXTURE_RESOURCE_STORAGE,
                },
                sample_type: Some(TextureSampleType::Uint),
            },
        )
        .build();

    assert_eq!(resource.layout_entries.len(), 3);
    match resource.layout_entries[0].ty {
        BindingType::Texture { sample_type, view_dimension, multisampled } => {
            assert_eq!(sample_type, TextureSampleType::Uint);
            assert_eq!(view_dimension, TextureDimension::D2);
            assert!(!multisampled);
        }
        _ => panic!("slot 0 must be the sampled texture"),
    }
    assert_eq!(
        resource.layout_entries[0].visibility,
        ShaderStages { bits: SHADER_STAGE_FRAGMENT | SHADER_STAGE_COMPUTE }
    );
    match resource.layout_entries[1].ty {
        BindingType::Sampler => {}
        _ => panic!("slot 1 must be the sampler"),
    }
    match resource.layout_entries[2].ty {
        BindingType::StorageTexture { format, view_dimension } => {
            assert_eq!(format, TextureFormat::Bgra8UnormSrgb);
            assert_eq!(view_dimension, TextureDimension::D2);
        }
        _ => panic!("slot 2 must be the storage image"),
    }
    match resource.bind_entries[1].resource {
        BoundResource::Sampler { generation } => assert_eq!(generation, 0),
        _ => panic!("slot 1 must bind the sampler"),
    }
}

#[test]
fn bound_resources_carry_the_source_generations() {
    let mut storage: Buffer<u32> = Buffer::new(4, BufferUsages { bits: BUFFER_USAGE_STORAGE });
    storage.resize(8);
    storage.resize(16);
    let mut texture = sampled_texture();
    texture.resize(SurfaceSize::new(32, 32));

    let resource = ShaderResource::builder()
        .add_texture(
            &texture,
            &TextureResourceDescriptor {
                usage: TextureResourceUsage { bits: TEXTURE_RESOURCE_TEXTURE },
                sample_type: Some(TextureSampleType::Float { filterable: false }),
            },
        )
        .add_buffer(
            &storage,
            &BufferResourceDescriptor {
                visibility: ShaderStages { bits: SHADER_STAGE_COMPUTE },
                buffer_type: BufferBindingType::Storage { read_only: true },
            },
        )
        .build();

    assert_eq!(
        resource.bind_entries[0].resource,
        BoundResource::TextureView { generation: 1 }
    );
    assert_eq!(resource.bind_entries[1].resource, BoundResource::Buffer { generation: 2 });
    assert_eq!(resource.get_resource().bind_entries.len(), 2);
}

#[test]
fn set_label_names_the_resource() {
    let resource = ShaderResource::builder().set_label(String::from("taa")).build();
    assert_eq!(resource.label.as_deref(), Some("taa"));
    assert!(resource.layout_entries.is_empty());
}

#[test]
fn render_pipeline_records_the_fixed_function_state() {
    let uniform: Buffer<u32> = Buffer::new(1, BufferUsages { bits: BUFFER_USAGE_UNIFORM });
    let resource = ShaderResource::builder()
        .add_buffer(
            &uniform,
            &BufferResourceDescriptor {
                visibility: ShaderStages { bits: SHADER_STAGE_VERTEX },
                buffer_type: BufferBindingType::Uniform,
            },
        )
        .build();
    let shader = Shader { label: Some("taa shader"), source: String::from("fn fs_main() {}") };
    let pipeline = Pipeline::new_render(
        shader,
        &[&resource],
        "TAA",
        false,
        TextureFormat::Bgra8UnormSrgb,
    );
    assert!(pipeline.is_render());
    assert!(!pipeline.is_compute());
    match pipeline {
        Pipeline::Render(c) => {
            assert_eq!(c.label, "TAA");
            assert!(!c.uses_vertex_buffer);
            assert_eq!(c.topology, PrimitiveTopology::TriangleList);
            assert_eq!(c.push_constants.stages, ShaderStages { bits: SHADER_STAGE_VERTEX });
            assert_eq!(c.push_constants.start, 0);
            assert_eq!(c.push_constants.end, 128);
            assert_eq!(c.depth_format, TextureFormat::Depth32Float);
            assert!(c.depth_write_enabled);
            assert_eq!(c.bind_group_layouts.len(), 1);
            assert_eq!(c.bind_group_layouts[0].len(), 1);
            assert_eq!(c.bind_group_layouts[0][0].binding, 0);
        }
        Pipeline::Compute(_) => panic!("a render pipeline was requested"),
    }
}

#[test]
fn compute_pipeline_targets_the_compute_stage() {
    let shader = Shader { label: None, source: String::from("fn cs_main() {}") };
    let pipeline = Pipeline::new_compute(shader, &[], "Ray tracing");
    assert!(pipeline.is_compute());
    match pipeline {
        Pipeline::Compute(c) => {
            assert_eq!(c.label, "Ray tracing");
            assert_eq!(c.push_constants.stages, ShaderStages { bits: SHADER_STAGE_COMPUTE });
            assert_eq!(c.push_constants.end, 128);
            assert!(c.bind_group_layouts.is_empty());
        }
        Pipeline::Render(_) => panic!("a compute pipeline was requested"),
    }
}
