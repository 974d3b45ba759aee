//! Temporal anti-aliasing state.
//!
//! [`Taa`] owns the render target the composite pass draws into, the
//! history texture holding the previous frame's output, the per-pixel
//! velocity buffer, and a one-element configuration buffer refreshed each
//! frame with the canvas size and a sub-pixel jitter sample.  Its
//! per-frame `update` compares every viewport-sized resource against the
//! current viewport, resizes whatever drifted, and rebuilds the shader
//! resource so that no binding points at a replaced allocation.

use vstd::prelude::*;

use crate::buffer::{Buffer, BufferBindingType, BufferResourceDescriptor};
use crate::pipeline::{
    texture_layout_seq, texture_bind_seq, BindEntry, BindingType, BoundResource, LayoutEntry,
    ShaderResource,
};
use crate::texture::{
    Texture, TextureDescriptor, TextureResourceDescriptor, TextureResourceUsage,
    TEXTURE_RESOURCE_SAMPLER, TEXTURE_RESOURCE_TEXTURE,
};
use crate::types::{
    BufferUsages, FilterMode, ShaderStages, SurfaceSize, TextureDimension, TextureFormat,
    TextureSampleType, TextureUsages, Vec4Bits, BUFFER_USAGE_COPY_DST, BUFFER_USAGE_STORAGE,
    BUFFER_USAGE_UNIFORM,
    SHADER_STAGE_COMPUTE, SHADER_STAGE_FRAGMENT, SHADER_STAGE_VERTEX, TEXTURE_USAGE_COPY_DST,
    TEXTURE_USAGE_COPY_SRC, TEXTURE_USAGE_RENDER_ATTACHMENT, TEXTURE_USAGE_TEXTURE_BINDING,
};

verus! {

/// The per-frame configuration uniform: canvas dimensions plus the raw
/// bit pattern of the frame's sub-pixel jitter sample.  The jitter value
/// itself is sampled outside the core, uniformly in [-1, 1].
#[derive(Clone, Copy, Debug, PartialEq, Eq, Structural)]
pub struct TaaConfig {
    pub canvas_width: u32,
    pub canvas_height: u32,
    pub jitter_bits: u32,
}

impl TaaConfig {
    /// The configuration for one frame.
    pub fn new(size: SurfaceSize, jitter_bits: u32) -> (c: TaaConfig)
        ensures
            c == (TaaConfig {
                canvas_width: size.width,
                canvas_height: size.height,
                jitter_bits,
            }),
    {
        TaaConfig { canvas_width: size.width, canvas_height: size.height, jitter_bits }
    }
}

/// How the history texture participates in the TAA binding.
pub open spec fn taa_history_resource_descriptor() -> TextureResourceDescriptor {
    TextureResourceDescriptor {
        usage: TextureResourceUsage {
            bits: TEXTURE_RESOURCE_TEXTURE | TEXTURE_RESOURCE_SAMPLER,
        },
        sample_type: Some(TextureSampleType::Float { filterable: true }),
    }
}

/// How the velocity buffer participates in the TAA binding.
pub open spec fn taa_velocity_resource_descriptor() -> BufferResourceDescriptor {
    BufferResourceDescriptor {
        visibility: ShaderStages { bits: SHADER_STAGE_COMPUTE | SHADER_STAGE_FRAGMENT },
        buffer_type: BufferBindingType::Storage { read_only: false },
    }
}

/// How the configuration buffer participates in the TAA binding.
pub open spec fn taa_config_resource_descriptor() -> BufferResourceDescriptor {
    BufferResourceDescriptor {
        visibility: ShaderStages {
            bits: SHADER_STAGE_VERTEX | SHADER_STAGE_FRAGMENT | SHADER_STAGE_COMPUTE,
        },
        buffer_type: BufferBindingType::Uniform,
    }
}

/// The layout of the TAA binding: history texture and sampler at slots
/// 0 and 1, velocity buffer at 2, configuration buffer at 3.
pub open spec fn taa_layout_seq(history: Texture) -> Seq<LayoutEntry> {
    texture_layout_seq(0, history, taa_history_resource_descriptor()).push(
        LayoutEntry {
            binding: 2,
            visibility: taa_velocity_resource_descriptor().visibility,
            ty: BindingType::Buffer { ty: taa_velocity_resource_descriptor().buffer_type },
        },
    ).push(
        LayoutEntry {
            binding: 3,
            visibility: taa_config_resource_descriptor().visibility,
            ty: BindingType::Buffer { ty: taa_config_resource_descriptor().buffer_type },
        },
    )
}

/// The bound resources of the TAA binding, named by the generations of
/// the allocations they were built from.
pub open spec fn taa_bind_seq(
    history: Texture,
    velocity_generation: u64,
    config_generation: u64,
) -> Seq<BindEntry> {
    texture_bind_seq(0, history, taa_history_resource_descriptor()).push(
        BindEntry { binding: 2, resource: BoundResource::Buffer { generation: velocity_generation } },
    ).push(
        BindEntry { binding: 3, resource: BoundResource::Buffer { generation: config_generation } },
    )
}

/// Bit facts behind the history texture's two-aspect usage set.
proof fn lemma_history_aspect_bits()
    ensures
        (TEXTURE_RESOURCE_TEXTURE | TEXTURE_RESOURCE_SAMPLER) & TEXTURE_RESOURCE_TEXTURE
            == TEXTURE_RESOURCE_TEXTURE,
        (TEXTURE_RESOURCE_TEXTURE | TEXTURE_RESOURCE_SAMPLER) & TEXTURE_RESOURCE_SAMPLER
            == TEXTURE_RESOURCE_SAMPLER,
        ((TEXTURE_RESOURCE_TEXTURE | TEXTURE_RESOURCE_SAMPLER) & 4u32) != 4u32,
{
    assert((1u32 | 2u32) & 1u32 == 1u32) by (bit_vector);
    assert((1u32 | 2u32) & 2u32 == 2u32) by (bit_vector);
    assert(((1u32 | 2u32) & 4u32) != 4u32) by (bit_vector);
}

/// Builds the TAA shader resource from the current history texture,
/// velocity buffer and configuration buffer.
fn build_taa_binding(
    history: &Texture,
    velocity: &Buffer<Vec4Bits>,
    config: &Buffer<TaaConfig>,
) -> (r: ShaderResource)
    ensures
        r.wf(),
        r.layout_entries@ == taa_layout_seq(*history),
        r.bind_entries@ == taa_bind_seq(*history, velocity.generation, config.generation),
{
    proof {
        lemma_history_aspect_bits();
    }
    let builder = ShaderResource::builder().add_texture(
        history,
        &TextureResourceDescriptor {
            usage: TextureResourceUsage {
                bits: TEXTURE_RESOURCE_TEXTURE | TEXTURE_RESOURCE_SAMPLER,
            },
            sample_type: Some(TextureSampleType::Float { filterable: true }),
        },
    ).add_buffer(
        velocity,
        &BufferResourceDescriptor {
            visibility: ShaderStages { bits: SHADER_STAGE_COMPUTE | SHADER_STAGE_FRAGMENT },
            buffer_type: BufferBindingType::Storage { read_only: false },
        },
    ).add_buffer(
        config,
        &BufferResourceDescriptor {
            visibility: ShaderStages {
                bits: SHADER_STAGE_VERTEX | SHADER_STAGE_FRAGMENT | SHADER_STAGE_COMPUTE,
            },
            buffer_type: BufferBindingType::Uniform,
        },
    );
    let r = builder.build();
    proof {
        assert(r.layout_entries@ =~= taa_layout_seq(*history));
        assert(r.bind_entries@ =~= taa_bind_seq(
            *history,
            velocity.generation,
            config.generation,
        ));
    }
    r
}

/// The double-buffered temporal anti-aliasing state.
pub struct Taa {
    pub render_texture: Texture,
    pub history_texture: Texture,
    pub velocity_buffer: Buffer<Vec4Bits>,
    pub config_buffer: Buffer<TaaConfig>,
    pub shader_resource: ShaderResource,
    pub current_jitter_bits: u32,
}

impl Taa {
    /// The buffers track their allocations and the configuration buffer
    /// keeps its fixed one-element capacity.
    pub open spec fn wf(&self) -> bool {
        &&& self.velocity_buffer.wf()
        &&& self.config_buffer.wf()
        &&& self.config_buffer.capacity == 1
    }

    /// The shader resource was built from the live allocations: its
    /// history view and sampler, velocity buffer and configuration buffer
    /// slots all name the current generations.
    pub open spec fn binding_current(&self) -> bool {
        &&& self.shader_resource.layout_entries@ == taa_layout_seq(self.history_texture)
        &&& self.shader_resource.bind_entries@ == taa_bind_seq(
            self.history_texture,
            self.velocity_buffer.generation,
            self.config_buffer.generation,
        )
    }

    /// All viewport-sized resources match the given viewport.
    pub open spec fn sized_for(&self, viewport: SurfaceSize) -> bool {
        &&& self.render_texture.description.width == viewport.width
        &&& self.render_texture.description.height == viewport.height
        &&& self.history_texture.description.width == viewport.width
        &&& self.history_texture.description.height == viewport.height
        &&& self.velocity_buffer.capacity == viewport.width as int * viewport.height as int
    }

    /// Fresh TAA state for the given viewport: a render target with copy
    /// source usage, a sampled history texture accepting copies, one
    /// velocity element per pixel, a one-element configuration buffer,
    /// and a shader resource built from all of them.
    pub fn new(viewport: SurfaceSize) -> (t: Taa)
        requires
            viewport.width as int * viewport.height as int <= usize::MAX,
        ensures
            t.wf(),
            t.sized_for(viewport),
            t.binding_current(),
            t.render_texture.description.filter == FilterMode::Linear,
            t.render_texture.description.dimension == TextureDimension::D2,
            t.render_texture.description.usage.bits == TEXTURE_USAGE_RENDER_ATTACHMENT
                | TEXTURE_USAGE_COPY_SRC,
            t.render_texture.description.format == TextureFormat::Bgra8UnormSrgb,
            t.render_texture.description.depth is None,
            t.render_texture.generation == 0,
            t.history_texture.description.filter == FilterMode::Linear,
            t.history_texture.description.dimension == TextureDimension::D2,
            t.history_texture.description.usage.bits == TEXTURE_USAGE_TEXTURE_BINDING
                | TEXTURE_USAGE_COPY_DST,
            t.history_texture.description.format == TextureFormat::Bgra8UnormSrgb,
            t.history_texture.description.depth is None,
            t.history_texture.generation == 0,
            t.velocity_buffer.usage.bits == BUFFER_USAGE_STORAGE | BUFFER_USAGE_COPY_DST,
            t.velocity_buffer.generation == 0,
            t.config_buffer.usage.bits == BUFFER_USAGE_UNIFORM | BUFFER_USAGE_COPY_DST,
            t.config_buffer.generation == 0,
            t.current_jitter_bits == 0,
    {
        let render_texture = Texture::new(
            TextureDescriptor {
                width: viewport.width,
                height: viewport.height,
                depth: None,
                filter: FilterMode::Linear,
                dimension: TextureDimension::D2,
                usage: TextureUsages {
                    bits: TEXTURE_USAGE_RENDER_ATTACHMENT | TEXTURE_USAGE_COPY_SRC,
                },
                format: TextureFormat::Bgra8UnormSrgb,
                label: "TAA Color",
            },
        );
        let history_texture = Texture::new(
            TextureDescriptor {
                width: viewport.width,
                height: viewport.height,
                depth: None,
                filter: FilterMode::Linear,
                dimension: TextureDimension::D2,
                usage: TextureUsages {
                    bits: TEXTURE_USAGE_TEXTURE_BINDING | TEXTURE_USAGE_COPY_DST,
                },
                format: TextureFormat::Bgra8UnormSrgb,
                label: "TAA History",
            },
        );
        let pixel_count = (viewport.width as usize) * (viewport.height as usize);
        let velocity_buffer: Buffer<Vec4Bits> = Buffer::new(
            pixel_count,
            BufferUsages { bits: BUFFER_USAGE_STORAGE },
        );
        let config_buffer: Buffer<TaaConfig> = Buffer::new(
            1,
            BufferUsages { bits: BUFFER_USAGE_UNIFORM | BUFFER_USAGE_COPY_DST },
        );
        let shader_resource = build_taa_binding(&history_texture, &velocity_buffer, &config_buffer);
        proof {
            // The allocation adds the copy-destination bit the requested
            // usage already holds; adding it twice changes nothing.
            assert((64u32 | 8u32) | 8u32 == 64u32 | 8u32) by (bit_vector);
        }
        Taa {
            render_texture,
            history_texture,
            velocity_buffer,
            config_buffer,
            shader_resource,
            current_jitter_bits: 0,
        }
    }

    /// Per-frame refresh.  Writes the frame's configuration (canvas size
    /// plus the jitter sample handed in), then compares render texture,
    /// history texture and velocity buffer against the viewport; whatever
    /// mismatches is resized, and any resize rebuilds the shader resource
    /// before this frame's passes can reference a replaced allocation.
    pub fn update(&mut self, viewport: SurfaceSize, jitter_bits: u32)
        requires
            old(self).wf(),
            viewport.width as int * viewport.height as int <= usize::MAX,
            old(self).render_texture.generation < u64::MAX,
            old(self).history_texture.generation < u64::MAX,
            old(self).velocity_buffer.generation < u64::MAX,
        ensures
            final(self).wf(),
            final(self).sized_for(viewport),
            final(self).current_jitter_bits == jitter_bits,
            final(self).config_buffer.capacity == 1,
            final(self).config_buffer.generation == old(self).config_buffer.generation,
            final(self).config_buffer.contents@[0] == Some(TaaConfig {
                canvas_width: viewport.width,
                canvas_height: viewport.height,
                jitter_bits,
            }),
            // A frame that changed nothing keeps every resource and the binding as they were.
            old(self).sized_for(viewport) ==> {
                &&& final(self).render_texture == old(self).render_texture
                &&& final(self).history_texture == old(self).history_texture
                &&& final(self).velocity_buffer.generation == old(self).velocity_buffer.generation
                &&& final(self).shader_resource.layout_entries@ == old(
                    self,
                ).shader_resource.layout_entries@
                &&& final(self).shader_resource.bind_entries@ == old(
                    self,
                ).shader_resource.bind_entries@
            },
            // Any drift forces a full rebind against the post-resize allocations.
            !old(self).sized_for(viewport) ==> final(self).binding_current(),
            // A binding that was current stays current either way.
            old(self).binding_current() ==> final(self).binding_current(),
    {
        let taa_config = TaaConfig::new(viewport, jitter_bits);
        self.current_jitter_bits = jitter_bits;
        let config_data = vec![taa_config];
        let fill_result = self.config_buffer.fill_exact(0, config_data.as_slice());
        proof {
            assert(fill_result is Ok);
        }

        let mut rebind_resources = false;

        if self.render_texture.description.width != viewport.width
            || self.render_texture.description.height != viewport.height {
            self.render_texture.resize(viewport);
            rebind_resources = true;
        }

        if self.history_texture.description.width != viewport.width
            || self.history_texture.description.height != viewport.height {
            self.history_texture.resize(viewport);
            rebind_resources = true;
        }

        let viewport_size = (viewport.width as usize) * (viewport.height as usize);
        if self.velocity_buffer.capacity() != viewport_size {
            self.velocity_buffer.resize(viewport_size);
            rebind_resources = true;
        }

        if rebind_resources {
            self.shader_resource = build_taa_binding(
                &self.history_texture,
                &self.velocity_buffer,
                &self.config_buffer,
            );
        }
    }
}

} // verus!
