//! The renderer's CPU-visible state: the viewport size, the registered
//! vertex buffers, and the depth texture that tracks the viewport.
//!
//! The device, surface and queue live outside the core; they mirror the
//! state tracked here.  What is proved is the bookkeeping: how buffer
//! identities are handed out, when a vertex-buffer write grows its
//! backing allocation, and how a viewport change regenerates the depth
//! texture.

use vstd::prelude::*;

use crate::buffer::{Buffer, BufferId, InvalidBufferId};
use crate::mesh::Vertex;
use crate::texture::{Texture, TextureDescriptor};
use crate::types::{
    BufferUsages, FilterMode, SurfaceSize, TextureDimension, TextureFormat, TextureUsages,
    BUFFER_USAGE_COPY_DST, BUFFER_USAGE_VERTEX, TEXTURE_USAGE_RENDER_ATTACHMENT,
    TEXTURE_USAGE_TEXTURE_BINDING,
};

verus! {

/// The renderer state the core tracks for the device-side renderer.
pub struct Renderer {
    pub size: SurfaceSize,
    pub vertex_buffers: Vec<Buffer<Vertex>>,
    pub depth_texture: Option<Texture>,
}

impl Renderer {
    /// Every registered vertex buffer tracks its allocation.
    pub open spec fn wf(&self) -> bool {
        forall|i: int|
            0 <= i < self.vertex_buffers@.len() ==> (#[trigger] self.vertex_buffers@[i]).wf()
    }

    /// The descriptor the depth texture is created from for a viewport.
    pub open spec fn depth_descriptor_spec(size: SurfaceSize) -> TextureDescriptor {
        TextureDescriptor {
            width: size.width,
            height: size.height,
            depth: None,
            filter: FilterMode::Linear,
            dimension: TextureDimension::D2,
            usage: TextureUsages {
                bits: TEXTURE_USAGE_RENDER_ATTACHMENT | TEXTURE_USAGE_TEXTURE_BINDING,
            },
            format: TextureFormat::Depth32Float,
            label: "Depth data",
        }
    }

    /// A renderer for the given viewport, with no vertex buffers yet and
    /// a fresh depth texture matching the viewport.
    pub fn new(size: SurfaceSize) -> (r: Renderer)
        ensures
            r.wf(),
            r.size == size,
            r.vertex_buffers@ == Seq::<Buffer<Vertex>>::empty(),
            r.depth_texture matches Some(t) && t.description
                == Renderer::depth_descriptor_spec(size) && t.generation == 0,
    {
        let depth_texture = Texture::new(
            TextureDescriptor {
                width: size.width,
                height: size.height,
                depth: None,
                filter: FilterMode::Linear,
                dimension: TextureDimension::D2,
                usage: TextureUsages {
                    bits: TEXTURE_USAGE_RENDER_ATTACHMENT | TEXTURE_USAGE_TEXTURE_BINDING,
                },
                format: TextureFormat::Depth32Float,
                label: "Depth data",
            },
        );
        Renderer { size, vertex_buffers: Vec::new(), depth_texture: Some(depth_texture) }
    }

    /// Applies a new viewport size: a size with a zero side is ignored;
    /// otherwise the size is stored and the depth texture is recreated
    /// from its descriptor with the new dimensions.
    pub fn resize_with(&mut self, new_size: SurfaceSize)
        requires
            old(self).wf(),
        ensures
            final(self).wf(),
            final(self).vertex_buffers@ == old(self).vertex_buffers@,
            new_size.width == 0 || new_size.height == 0 ==> final(self).size == old(self).size
                && final(self).depth_texture == old(self).depth_texture,
            new_size.width != 0 && new_size.height != 0 ==> {
                &&& final(self).size == new_size
                &&& old(self).depth_texture is None ==> final(self).depth_texture is None
                &&& old(self).depth_texture matches Some(t) ==> final(self).depth_texture
                    matches Some(nt) && nt.generation == 0 && nt.description == (TextureDescriptor {
                    width: new_size.width,
                    height: new_size.height,
                    ..t.description
                })
            },
    {
        if new_size.width == 0 || new_size.height == 0 {
            return ;
        }
        self.size = new_size;
        match &self.depth_texture {
            Some(t) => {
                let mut descr = t.description;
                descr.width = new_size.width;
                descr.height = new_size.height;
                self.depth_texture = Some(Texture::new(descr));
            },
            None => {},
        }
    }

    /// Reapplies the current size, regenerating the depth texture.
    pub fn resize(&mut self)
        requires
            old(self).wf(),
        ensures
            final(self).wf(),
            final(self).vertex_buffers@ == old(self).vertex_buffers@,
            old(self).size.width == 0 || old(self).size.height == 0 ==> final(self).size == old(
                self,
            ).size && final(self).depth_texture == old(self).depth_texture,
            old(self).size.width != 0 && old(self).size.height != 0 ==> {
                &&& final(self).size == old(self).size
                &&& old(self).depth_texture is None ==> final(self).depth_texture is None
                &&& old(self).depth_texture matches Some(t) ==> final(self).depth_texture
                    matches Some(nt) && nt.generation == 0 && nt.description == (TextureDescriptor {
                    width: old(self).size.width,
                    height: old(self).size.height,
                    ..t.description
                })
            },
    {
        let size = self.size;
        self.resize_with(size);
    }

    /// Registers a fresh vertex buffer of the given element capacity and
    /// returns its id: the position it was appended at.
    pub fn create_vertex_buffer(&mut self, capacity: usize) -> (id: BufferId)
        requires
            old(self).wf(),
        ensures
            final(self).wf(),
            final(self).size == old(self).size,
            final(self).depth_texture == old(self).depth_texture,
            id.0 == old(self).vertex_buffers@.len(),
            final(self).vertex_buffers@.len() == old(self).vertex_buffers@.len() + 1,
            forall|i: int|
                0 <= i < old(self).vertex_buffers@.len()
                    ==> #[trigger] final(self).vertex_buffers@[i] == old(self).vertex_buffers@[i],
            ({
                let b = final(self).vertex_buffers@[id.0 as int];
                &&& b.wf()
                &&& b.capacity == capacity
                &&& b.usage.bits == BUFFER_USAGE_VERTEX | BUFFER_USAGE_COPY_DST
                &&& b.generation == 0
                &&& forall|i: int| 0 <= i < capacity ==> b.contents@[i] is None
            }),
    {
        let id = BufferId(self.vertex_buffers.len());
        let buffer: Buffer<Vertex> = Buffer::new(
            capacity,
            BufferUsages { bits: BUFFER_USAGE_VERTEX },
        );
        self.vertex_buffers.push(buffer);
        id
    }

    /// Writes `data` into the vertex buffer named by `id`.  When the data
    /// fits the buffer's capacity it is written in place at element 0;
    /// when it does not, the buffer is reallocated to exactly the data's
    /// length — moving to a new generation — and written from element 0.
    /// An id that names no registered buffer is reported.
    pub fn update_vertex_buffer(&mut self, id: BufferId, data: &[Vertex]) -> (r: Result<
        (),
        InvalidBufferId,
    >)
        requires
            old(self).wf(),
            id.0 < old(self).vertex_buffers@.len()
                ==> old(self).vertex_buffers@[id.0 as int].generation < u64::MAX,
        ensures
            final(self).wf(),
            final(self).size == old(self).size,
            final(self).depth_texture == old(self).depth_texture,
            r is Ok <==> id.0 < old(self).vertex_buffers@.len(),
            r is Err ==> final(self).vertex_buffers@ == old(self).vertex_buffers@ && r == Err::<
                (),
                InvalidBufferId,
            >(InvalidBufferId(id)),
            r is Ok ==> {
                &&& final(self).vertex_buffers@.len() == old(self).vertex_buffers@.len()
                &&& (forall|i: int|
                    0 <= i < old(self).vertex_buffers@.len() && i != id.0 ==> #[trigger] final(self).vertex_buffers@[i] == old(self).vertex_buffers@[i])
                &&& final(self).vertex_buffers@[id.0 as int].usage == old(self).vertex_buffers@[id.0 as int].usage
                &&& final(self).vertex_buffers@[id.0 as int].capacity >= data@.len()
                &&& forall|i: int|
                    0 <= i < data@.len() ==> #[trigger] final(self).vertex_buffers@[id.0 as int].contents@[i] == Some(data@[i])
            },
            r is Ok && data@.len() <= old(self).vertex_buffers@[id.0 as int].capacity ==> {
                &&& final(self).vertex_buffers@[id.0 as int].capacity == old(self).vertex_buffers@[id.0 as int].capacity
                &&& final(self).vertex_buffers@[id.0 as int].generation == old(self).vertex_buffers@[id.0 as int].generation
                &&& forall|i: int|
                    data@.len() <= i < old(self).vertex_buffers@[id.0 as int].capacity
                        ==> #[trigger] final(self).vertex_buffers@[id.0 as int].contents@[i] == old(self).vertex_buffers@[id.0 as int].contents@[i]
            },
            r is Ok && data@.len() > old(self).vertex_buffers@[id.0 as int].capacity ==> {
                &&& final(self).vertex_buffers@[id.0 as int].capacity == data@.len()
                &&& final(self).vertex_buffers@[id.0 as int].generation == old(self).vertex_buffers@[id.0 as int].generation + 1
            },
    {
        if id.0 >= self.vertex_buffers.len() {
            return Err(InvalidBufferId(id));
        }
        let ghost old_buffers = self.vertex_buffers@;
        let mut buffer = self.vertex_buffers.remove(id.0);
        buffer.fill(0, data);
        self.vertex_buffers.insert(id.0, buffer);
        proof {
            assert(final(self).vertex_buffers@ =~= old_buffers.update(
                id.0 as int,
                final(self).vertex_buffers@[id.0 as int],
            ));
        }
        Ok(())
    }

    /// The current viewport size.
    pub fn size(&self) -> (r: SurfaceSize)
        ensures
            r == self.size,
    {
        self.size
    }

    /// The depth texture, when one is set up.
    pub fn depth_texture(&self) -> (r: &Option<Texture>)
        ensures
            r == self.depth_texture,
    {
        &self.depth_texture
    }
}

} // verus!
