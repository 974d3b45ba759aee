//! Shader resource bindings and pipeline configurations.
//!
//! A [`ShaderResourceBuilder`] accumulates buffer and texture declarations
//! in call order and assigns binding indices sequentially from 0: one slot
//! per buffer, one slot per declared aspect of a texture, in the fixed
//! aspect order texture, sampler, storage.  [`ShaderResource`] is the
//! materialized layout/binding pair; layout and bound resources are built
//! together and never mutated independently, so their binding index
//! sequences always match.

use vstd::prelude::*;

use crate::buffer::{Buffer, BufferBindingType, BufferResourceDescriptor};
use crate::texture::{
    Texture, TextureResourceDescriptor, TextureResourceUsage, TEXTURE_RESOURCE_SAMPLER,
    TEXTURE_RESOURCE_STORAGE, TEXTURE_RESOURCE_TEXTURE,
};
use crate::types::{
    Face, FrontFace, CompareFunction, PrimitiveTopology, ShaderStages, TextureDimension,
    TextureFormat, TextureSampleType, SHADER_STAGE_COMPUTE, SHADER_STAGE_FRAGMENT,
    SHADER_STAGE_VERTEX,
};

verus! {

/// The shader-visible type of one binding slot.
#[derive(Clone, Copy, Debug, PartialEq, Eq, Structural)]
pub enum BindingType {
    /// A buffer binding; dynamic offsets are never used here.
    Buffer { ty: BufferBindingType },
    /// A sampled texture.
    Texture {
        sample_type: TextureSampleType,
        view_dimension: TextureDimension,
        multisampled: bool,
    },
    /// A filtering sampler.
    Sampler,
    /// A write-only storage texture.
    StorageTexture { format: TextureFormat, view_dimension: TextureDimension },
}

/// One slot of a bind-group layout.
#[derive(Clone, Copy, Debug, PartialEq, Eq, Structural)]
pub struct LayoutEntry {
    pub binding: u32,
    pub visibility: ShaderStages,
    pub ty: BindingType,
}

/// The concrete resource bound into one slot, named by the generation of
/// the backing allocation it was taken from.
#[derive(Clone, Copy, Debug, PartialEq, Eq, Structural)]
pub enum BoundResource {
    Buffer { generation: u64 },
    TextureView { generation: u64 },
    Sampler { generation: u64 },
}

/// One slot of a bind group.
#[derive(Clone, Copy, Debug, PartialEq, Eq, Structural)]
pub struct BindEntry {
    pub binding: u32,
    pub resource: BoundResource,
}

/// Layout and binding slots assigned so far, in insertion order.
pub struct ShaderResourceBuilder {
    pub label: Option<String>,
    pub layout_entries: Vec<LayoutEntry>,
    pub bind_entries: Vec<BindEntry>,
}

/// A materialized bind-group layout together with the bind group filled
/// from it.
pub struct ShaderResource {
    pub label: Option<String>,
    pub layout_entries: Vec<LayoutEntry>,
    pub bind_entries: Vec<BindEntry>,
}

/// Layout and binding sequences that were built together: equally long,
/// with binding index `i` stored at position `i` on both sides.
pub open spec fn entries_wf(layout: Seq<LayoutEntry>, binds: Seq<BindEntry>) -> bool {
    &&& layout.len() == binds.len()
    &&& layout.len() <= u32::MAX
    &&& forall|i: int| 0 <= i < layout.len() ==> #[trigger] layout[i].binding == i
    &&& forall|i: int| 0 <= i < binds.len() ==> #[trigger] binds[i].binding == i
}

/// The number of binding slots a texture with the given aspects consumes.
pub open spec fn texture_slot_count(usage: TextureResourceUsage) -> int {
    (if usage.spec_has(TEXTURE_RESOURCE_TEXTURE) { 1int } else { 0int })
        + (if usage.spec_has(TEXTURE_RESOURCE_SAMPLER) { 1int } else { 0int })
        + (if usage.spec_has(TEXTURE_RESOURCE_STORAGE) { 1int } else { 0int })
}

/// The layout slots a texture contributes, starting at binding `base`,
/// in the fixed aspect order texture, sampler, storage.
pub open spec fn texture_layout_seq(
    base: int,
    texture: Texture,
    descriptor: TextureResourceDescriptor,
) -> Seq<LayoutEntry> {
    let tex: Seq<LayoutEntry> = if descriptor.usage.spec_has(TEXTURE_RESOURCE_TEXTURE) {
        seq![
            LayoutEntry {
                binding: base as u32,
                visibility: ShaderStages { bits: SHADER_STAGE_FRAGMENT | SHADER_STAGE_COMPUTE },
                ty: BindingType::Texture {
                    sample_type: descriptor.sample_type->Some_0,
                    view_dimension: texture.description.dimension,
                    multisampled: false,
                },
            },
        ]
    } else {
        Seq::empty()
    };
    let smp: Seq<LayoutEntry> = if descriptor.usage.spec_has(TEXTURE_RESOURCE_SAMPLER) {
        seq![
            LayoutEntry {
                binding: (base + tex.len()) as u32,
                visibility: ShaderStages { bits: SHADER_STAGE_FRAGMENT },
                ty: BindingType::Sampler,
            },
        ]
    } else {
        Seq::empty()
    };
    let sto: Seq<LayoutEntry> = if descriptor.usage.spec_has(TEXTURE_RESOURCE_STORAGE) {
        seq![
            LayoutEntry {
                binding: (base + tex.len() + smp.len()) as u32,
                visibility: ShaderStages { bits: SHADER_STAGE_COMPUTE | SHADER_STAGE_FRAGMENT },
                ty: BindingType::StorageTexture {
                    format: texture.description.format,
                    view_dimension: texture.description.dimension,
                },
            },
        ]
    } else {
        Seq::empty()
    };
    tex + smp + sto
}

/// The bind slots a texture contributes, matching `texture_layout_seq`.
pub open spec fn texture_bind_seq(
    base: int,
    texture: Texture,
    descriptor: TextureResourceDescriptor,
) -> Seq<BindEntry> {
    let tex: Seq<BindEntry> = if descriptor.usage.spec_has(TEXTURE_RESOURCE_TEXTURE) {
        seq![
            BindEntry {
                binding: base as u32,
                resource: BoundResource::TextureView { generation: texture.generation },
            },
        ]
    } else {
        Seq::empty()
    };
    let smp: Seq<BindEntry> = if descriptor.usage.spec_has(TEXTURE_RESOURCE_SAMPLER) {
        seq![
            BindEntry {
                binding: (base + tex.len()) as u32,
                resource: BoundResource::Sampler { generation: texture.generation },
            },
        ]
    } else {
        Seq::empty()
    };
    let sto: Seq<BindEntry> = if descriptor.usage.spec_has(TEXTURE_RESOURCE_STORAGE) {
        seq![
            BindEntry {
                binding: (base + tex.len() + smp.len()) as u32,
                resource: BoundResource::TextureView { generation: texture.generation },
            },
        ]
    } else {
        Seq::empty()
    };
    tex + smp + sto
}

impl TextureResourceUsage {
    /// Whether the aspect bits `bits` are all set.
    pub open spec fn spec_has(&self, bits: u32) -> bool {
        self.bits & bits == bits
    }
}

impl ShaderResourceBuilder {
    /// Both entry lists grew in lockstep with contiguous binding indices.
    pub open spec fn wf(&self) -> bool {
        entries_wf(self.layout_entries@, self.bind_entries@)
    }

    /// Replaces the debug label used for the materialized objects.
    pub fn set_label(self, label: String) -> (b: ShaderResourceBuilder)
        ensures
            b.label == Some(label),
            b.layout_entries@ == self.layout_entries@,
            b.bind_entries@ == self.bind_entries@,
    {
        ShaderResourceBuilder {
            label: Some(label),
            layout_entries: self.layout_entries,
            bind_entries: self.bind_entries,
        }
    }

    /// Appends one buffer declaration: it takes the next binding index,
    /// is visible to the declared stages with the declared buffer type,
    /// and binds the buffer's current allocation.
    pub fn add_buffer<T: Copy>(
        self,
        buffer: &Buffer<T>,
        descriptor: &BufferResourceDescriptor,
    ) -> (b: ShaderResourceBuilder)
        requires
            self.wf(),
            self.layout_entries@.len() < u32::MAX,
        ensures
            b.wf(),
            b.label == self.label,
            b.layout_entries@ == self.layout_entries@.push(
                LayoutEntry {
                    binding: self.layout_entries@.len() as u32,
                    visibility: descriptor.visibility,
                    ty: BindingType::Buffer { ty: descriptor.buffer_type },
                },
            ),
            b.bind_entries@ == self.bind_entries@.push(
                BindEntry {
                    binding: self.bind_entries@.len() as u32,
                    resource: BoundResource::Buffer { generation: buffer.generation },
                },
            ),
    {
        let mut layout_entries = self.layout_entries;
        let mut bind_entries = self.bind_entries;
        let binding = layout_entries.len() as u32;
        layout_entries.push(
            LayoutEntry {
                binding,
                visibility: descriptor.visibility,
                ty: BindingType::Buffer { ty: descriptor.buffer_type },
            },
        );
        bind_entries.push(
            BindEntry {
                binding,
                resource: BoundResource::Buffer { generation: buffer.generation },
            },
        );
        ShaderResourceBuilder { label: self.label, layout_entries, bind_entries }
    }

    /// Appends one texture declaration: each declared aspect consumes one
    /// binding index, in the fixed order texture, sampler, storage.  A
    /// declaration that asks for the sampled-texture aspect must name a
    /// sample type; leaving it out is a configuration mistake with no
    /// sensible recovery, so it is ruled out here.
    pub fn add_texture(
        self,
        texture: &Texture,
        descriptor: &TextureResourceDescriptor,
    ) -> (b: ShaderResourceBuilder)
        requires
            self.wf(),
            self.layout_entries@.len() + 3 <= u32::MAX,
            descriptor.usage.spec_has(TEXTURE_RESOURCE_TEXTURE) ==> descriptor.sample_type is Some,
        ensures
            b.wf(),
            b.label == self.label,
            b.layout_entries@ == self.layout_entries@ + texture_layout_seq(
                self.layout_entries@.len() as int,
                *texture,
                *descriptor,
            ),
            b.bind_entries@ == self.bind_entries@ + texture_bind_seq(
                self.bind_entries@.len() as int,
                *texture,
                *descriptor,
            ),
    {
        let ghost base = self.layout_entries@.len() as int;
        let mut layout_entries = self.layout_entries;
        let mut bind_entries = self.bind_entries;
        if descriptor.usage.contains(TextureResourceUsage { bits: TEXTURE_RESOURCE_TEXTURE }) {
            let binding = layout_entries.len() as u32;
            let sample_type = match descriptor.sample_type {
                Some(s) => s,
                Option::None => TextureSampleType::Uint,
            };
            layout_entries.push(
                LayoutEntry {
                    binding,
                    visibility: ShaderStages {
                        bits: SHADER_STAGE_FRAGMENT | SHADER_STAGE_COMPUTE,
                    },
                    ty: BindingType::Texture {
                        sample_type,
                        view_dimension: texture.description.dimension,
                        multisampled: false,
                    },
                },
            );
            bind_entries.push(
                BindEntry {
                    binding,
                    resource: BoundResource::TextureView { generation: texture.generation },
                },
            );
        }
        if descriptor.usage.contains(TextureResourceUsage { bits: TEXTURE_RESOURCE_SAMPLER }) {
            let binding = layout_entries.len() as u32;
            layout_entries.push(
                LayoutEntry {
                    binding,
                    visibility: ShaderStages { bits: SHADER_STAGE_FRAGMENT },
                    ty: BindingType::Sampler,
                },
            );
            bind_entries.push(
                BindEntry {
                    binding,
                    resource: BoundResource::Sampler { generation: texture.generation },
                },
            );
        }
        if descriptor.usage.contains(TextureResourceUsage { bits: TEXTURE_RESOURCE_STORAGE }) {
            let binding = layout_entries.len() as u32;
            layout_entries.push(
                LayoutEntry {
                    binding,
                    visibility: ShaderStages {
                        bits: SHADER_STAGE_COMPUTE | SHADER_STAGE_FRAGMENT,
                    },
                    ty: BindingType::StorageTexture {
                        format: texture.description.format,
                        view_dimension: texture.description.dimension,
                    },
                },
            );
            bind_entries.push(
                BindEntry {
                    binding,
                    resource: BoundResource::TextureView { generation: texture.generation },
                },
            );
        }
        proof {
            assert(layout_entries@ =~= self.layout_entries@ + texture_layout_seq(
                base,
                *texture,
                *descriptor,
            ));
            assert(bind_entries@ =~= self.bind_entries@ + texture_bind_seq(
                base,
                *texture,
                *descriptor,
            ));
        }
        ShaderResourceBuilder { label: self.label, layout_entries, bind_entries }
    }

    /// Materializes the accumulated layout and binding set.  The two are
    /// frozen as built: any structural change, and any resize of a bound
    /// resource, requires building a fresh `ShaderResource`.
    pub fn build(self) -> (r: ShaderResource)
        ensures
            r.label == self.label,
            r.layout_entries@ == self.layout_entries@,
            r.bind_entries@ == self.bind_entries@,
    {
        ShaderResource {
            label: self.label,
            layout_entries: self.layout_entries,
            bind_entries: self.bind_entries,
        }
    }
}

impl ShaderResource {
    /// Layout and binding sequences match with contiguous indices.
    pub open spec fn wf(&self) -> bool {
        entries_wf(self.layout_entries@, self.bind_entries@)
    }

    /// An empty builder.
    pub fn builder() -> (b: ShaderResourceBuilder)
        ensures
            b.wf(),
            b.label is None,
            b.layout_entries@ == Seq::<LayoutEntry>::empty(),
            b.bind_entries@ == Seq::<BindEntry>::empty(),
    {
        ShaderResourceBuilder { label: None, layout_entries: Vec::new(), bind_entries: Vec::new() }
    }
}

/// Binding index contiguity: in a well-formed resource the layout's
/// binding indices are exactly 0, 1, …, n−1 with no gaps or duplicates,
/// and the bound-resource list carries the same index sequence, so the
/// slots a newly added resource received equal the cumulative slot count
/// of everything added before it.
pub proof fn lemma_binding_indices_contiguous(r: &ShaderResource)
    requires
        r.wf(),
    ensures
        r.layout_entries@.len() == r.bind_entries@.len(),
        forall|i: int|
            0 <= i < r.layout_entries@.len() ==> #[trigger] r.layout_entries@[i].binding == i,
        forall|i: int|
            0 <= i < r.bind_entries@.len() ==> #[trigger] r.bind_entries@[i].binding == i,
        forall|i: int, j: int|
            0 <= i < r.layout_entries@.len() && 0 <= j < r.layout_entries@.len() && i != j
                ==> r.layout_entries@[i].binding != r.layout_entries@[j].binding,
{
}

/// A trait for anything that exposes a materialized shader resource to a
/// draw or dispatch call.
pub trait ShaderBinding {
    fn get_resource(&self) -> &ShaderResource;
}

impl ShaderBinding for ShaderResource {
    fn get_resource(&self) -> &ShaderResource {
        self
    }
}

/// A shader module: an opaque source text and a debug label.
#[derive(Clone, Debug)]
pub struct Shader {
    pub label: Option<&'static str>,
    pub source: String,
}

/// The byte range of push-constant data delivered to the given stages.
#[derive(Clone, Copy, Debug, PartialEq, Eq, Structural)]
pub struct PushConstantRange {
    pub stages: ShaderStages,
    pub start: u32,
    pub end: u32,
}

/// Everything a render pipeline is compiled from, as fixed at creation.
pub struct RenderPipelineConfig {
    pub label: &'static str,
    pub shader: Shader,
    pub bind_group_layouts: Vec<Vec<LayoutEntry>>,
    pub uses_vertex_buffer: bool,
    pub push_constants: PushConstantRange,
    pub topology: PrimitiveTopology,
    pub front_face: FrontFace,
    pub cull_mode: Option<Face>,
    pub surface_format: TextureFormat,
    pub depth_format: TextureFormat,
    pub depth_compare: CompareFunction,
    pub depth_write_enabled: bool,
}

/// Everything a compute pipeline is compiled from.
pub struct ComputePipelineConfig {
    pub label: &'static str,
    pub shader: Shader,
    pub bind_group_layouts: Vec<Vec<LayoutEntry>>,
    pub push_constants: PushConstantRange,
}

/// A compiled pipeline: either a render pipeline or a compute pipeline.
/// The variant decides which commands may target it: draws need `Render`,
/// dispatches need `Compute`.
pub enum Pipeline {
    Render(RenderPipelineConfig),
    Compute(ComputePipelineConfig),
}

impl Pipeline {
    /// Compiles a render pipeline over the given bind-group layouts:
    /// triangle-list topology, back-face culling with counter-clockwise
    /// front faces, a fixed less-compare write-enabled depth test, and a
    /// 128-byte vertex-stage push-constant range.  With `use_vertices`
    /// the pipeline consumes one interleaved vertex stream.
    pub fn new_render(
        shader: Shader,
        bindings: &[&ShaderResource],
        label: &'static str,
        use_vertices: bool,
        surface_format: TextureFormat,
    ) -> (p: Pipeline)
        ensures
            p matches Pipeline::Render(c) && {
                &&& c.label == label
                &&& c.shader.source@ == shader.source@
                &&& c.uses_vertex_buffer == use_vertices
                &&& c.push_constants == (PushConstantRange {
                    stages: ShaderStages { bits: SHADER_STAGE_VERTEX },
                    start: 0,
                    end: 128,
                })
                &&& c.topology == PrimitiveTopology::TriangleList
                &&& c.front_face == FrontFace::Ccw
                &&& c.cull_mode == Some(Face::Back)
                &&& c.surface_format == surface_format
                &&& c.depth_format == TextureFormat::Depth32Float
                &&& c.depth_compare == CompareFunction::Less
                &&& c.depth_write_enabled
                &&& c.bind_group_layouts@.len() == bindings@.len()
                &&& forall|i: int|
                    0 <= i < bindings@.len()
                        ==> #[trigger] c.bind_group_layouts@[i]@ == bindings@[i].layout_entries@
            },
    {
        let bind_group_layouts = copy_layouts(bindings);
        Pipeline::Render(
            RenderPipelineConfig {
                label,
                shader,
                bind_group_layouts,
                uses_vertex_buffer: use_vertices,
                push_constants: PushConstantRange {
                    stages: ShaderStages { bits: SHADER_STAGE_VERTEX },
                    start: 0,
                    end: 128,
                },
                topology: PrimitiveTopology::TriangleList,
                front_face: FrontFace::Ccw,
                cull_mode: Some(Face::Back),
                surface_format,
                depth_format: TextureFormat::Depth32Float,
                depth_compare: CompareFunction::Less,
                depth_write_enabled: true,
            },
        )
    }

    /// Compiles a compute pipeline over the given bind-group layouts with
    /// a 128-byte compute-stage push-constant range.
    pub fn new_compute(shader: Shader, bindings: &[&ShaderResource], label: &'static str) -> (p:
        Pipeline)
        ensures
            p matches Pipeline::Compute(c) && {
                &&& c.label == label
                &&& c.shader.source@ == shader.source@
                &&& c.push_constants == (PushConstantRange {
                    stages: ShaderStages { bits: SHADER_STAGE_COMPUTE },
                    start: 0,
                    end: 128,
                })
                &&& c.bind_group_layouts@.len() == bindings@.len()
                &&& forall|i: int|
                    0 <= i < bindings@.len()
                        ==> #[trigger] c.bind_group_layouts@[i]@ == bindings@[i].layout_entries@
            },
    {
        let bind_group_layouts = copy_layouts(bindings);
        Pipeline::Compute(
            ComputePipelineConfig {
                label,
                shader,
                bind_group_layouts,
                push_constants: PushConstantRange {
                    stages: ShaderStages { bits: SHADER_STAGE_COMPUTE },
                    start: 0,
                    end: 128,
                },
            },
        )
    }

    /// Whether draws may target this pipeline.
    pub fn is_render(&self) -> (r: bool)
        ensures
            r == (self is Render),
    {
        match self {
            Pipeline::Render(_) => true,
            Pipeline::Compute(_) => false,
        }
    }

    /// Whether dispatches may target this pipeline.
    pub fn is_compute(&self) -> (r: bool)
        ensures
            r == (self is Compute),
    {
        match self {
            Pipeline::Render(_) => false,
            Pipeline::Compute(_) => true,
        }
    }
}

/// Copies the layout entry lists out of an ordered binding list.
fn copy_layouts(bindings: &[&ShaderResource]) -> (r: Vec<Vec<LayoutEntry>>)
    ensures
        r@.len() == bindings@.len(),
        forall|i: int| 0 <= i < bindings@.len() ==> #[trigger] r@[i]@ == bindings@[i].layout_entries@,
{
    let mut r: Vec<Vec<LayoutEntry>> = Vec::new();
    let mut i: usize = 0;
    while i < bindings.len()
        invariant
            i <= bindings@.len(),
            r@.len() == i,
            forall|k: int| 0 <= k < i ==> #[trigger] r@[k]@ == bindings@[k].layout_entries@,
        decreases bindings@.len() - i,
    {
        let entries = &bindings[i].layout_entries;
        let mut copy: Vec<LayoutEntry> = Vec::new();
        let mut j: usize = 0;
        while j < entries.len()
            invariant
                j <= entries@.len(),
                copy@ == entries@.take(j as int),
            decreases entries@.len() - j,
        {
            copy.push(entries[j]);
            proof {
                assert(copy@ =~= entries@.take(j + 1int));
            }
            j = j + 1;
        }
        proof {
            assert(entries@.take(entries@.len() as int) =~= entries@);
        }
        r.push(copy);
        i = i + 1;
    }
    r
}

/// Keys naming the pipelines a renderer keeps ready.
#[derive(Clone, Copy, Debug, Hash, PartialEq, Eq, Structural)]
pub enum PipelineKey {
    MainPipeline,
    RtPipeline,
}

} // verus!
