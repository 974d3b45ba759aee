//! A fixed 32×32×32 block grid, its face-culled mesh, and its packing
//! into one slice range of a shared 3D texture atlas.

use vstd::prelude::*;
use vstd::arithmetic::div_mod::{
    lemma_div_denominator, lemma_div_pos_is_pos, lemma_fundamental_div_mod,
    lemma_fundamental_div_mod_converse, lemma_mod_pos_bound,
};

use crate::block::Block;
use crate::buffer::{Buffer, BufferId};
use crate::renderer::Renderer;
use crate::mesh::{face_vertices, FaceDirection, Mesh, Vertex};
use crate::texture::{Texture, TextureDescriptor};
use crate::types::{Color, Extent3d, TextureDimension};

verus! {

/// The size of a chunk in blocks along each axis.
pub const CHUNK_SIZE: usize = 32;

/// The number of blocks in a chunk.
pub const CHUNK_VOLUME: usize = CHUNK_SIZE * CHUNK_SIZE * CHUNK_SIZE;

/// The packed byte size of a chunk: four bytes per block.
pub const CHUNK_BYTES: usize = CHUNK_VOLUME * 4;

/// How many chunk slots the shared 3D texture atlas holds, derived from
/// the configured render distance.
pub const CHUNKS_RENDER_DISTANCE: u32 = 3;

/// The chunk capacity of the shared atlas: a square of side
/// `2 * CHUNKS_RENDER_DISTANCE + 1` around the viewer, with the distance
/// clamped up to 1.
pub fn chunks_count() -> (r: u32)
    ensures
        r == {
            let distance: u32 = if CHUNKS_RENDER_DISTANCE < 1 { 1u32 } else { CHUNKS_RENDER_DISTANCE };
            (2 * distance + 1) * (2 * distance + 1)
        },
{
    let distance: u32 = if CHUNKS_RENDER_DISTANCE < 1 { 1 } else { CHUNKS_RENDER_DISTANCE };
    (2 * distance + 1) * (2 * distance + 1)
}

/// Error returned when block coordinates fall outside a chunk.
#[derive(Clone, Copy, Debug, PartialEq, Eq, Structural)]
pub struct InvalidBlockCoords(pub usize, pub usize, pub usize);

/// Why a chunk could not be loaded into the shared 3D texture atlas.
#[derive(Clone, Copy, Debug, PartialEq, Eq, Structural)]
pub enum LoadChunkError {
    /// The atlas texture is not a 3D texture.
    InvalidTextureDimension { expected: TextureDimension, found: TextureDimension },
    /// The atlas width or height differs from the chunk size.
    InvalidTextureSize { expected: Extent3d, found: Extent3d },
    /// The chunk index does not fit the atlas depth.
    InvalidChunksIndex { max: u64, found: u64 },
    /// The atlas depth is not a multiple of the chunk size.
    InvalidTextureDepth(u32),
    /// The packed source bytes do not cover the copy region that starts
    /// at the slot's byte offset.
    SourceBufferOverrun { required: u64, available: u64 },
}

/// The index of block (x, y, z) in a chunk's flat block list: x varies
/// slowest, z fastest.
pub open spec fn block_index_spec(x: int, y: int, z: int) -> int {
    x * (CHUNK_SIZE * CHUNK_SIZE) + y * CHUNK_SIZE + z
}

/// Whether (x, y, z) lies inside the chunk grid.
pub open spec fn in_chunk_bounds(x: int, y: int, z: int) -> bool {
    &&& 0 <= x < CHUNK_SIZE
    &&& 0 <= y < CHUNK_SIZE
    &&& 0 <= z < CHUNK_SIZE
}

/// A 32×32×32 grid of blocks plus the palette coloring them.
#[derive(Clone, Debug)]
pub struct Chunk {
    /// The blocks, flattened in `block_index_spec` order.
    pub blocks: Vec<Block>,
    /// The color palette the blocks' palette indices point into.
    pub palette: Vec<Color>,
    /// The id of the vertex buffer holding the chunk's mesh, once
    /// `update` has registered one.
    pub vertex_buffer: Option<BufferId>,
}

impl Chunk {
    /// The flat block list covers exactly the chunk volume.
    pub open spec fn wf(&self) -> bool {
        self.blocks@.len() == CHUNK_VOLUME
    }

    /// The block stored at (x, y, z).
    pub open spec fn spec_block_at(&self, x: int, y: int, z: int) -> Block {
        self.blocks@[block_index_spec(x, y, z)]
    }

    /// Whether (x, y, z) is inside the grid and holds an active block.
    pub open spec fn spec_active(&self, x: int, y: int, z: int) -> bool {
        in_chunk_bounds(x, y, z) && self.spec_block_at(x, y, z).active
    }

    /// Every active block's palette index points into the palette.  A
    /// violation means corrupt model data and has no sensible recovery,
    /// so mesh generation insists on this instead of reporting it.
    pub open spec fn palette_indices_valid(&self) -> bool {
        forall|x: int, y: int, z: int|
            in_chunk_bounds(x, y, z) && self.spec_block_at(x, y, z).active
                ==> #[trigger] self.spec_block_at(x, y, z).color_id < self.palette@.len()
    }

    /// A chunk of default (inactive) blocks over the given palette.
    pub fn new(palette: Vec<Color>) -> (c: Chunk)
        ensures
            c.wf(),
            c.palette@ == palette@,
            forall|i: int|
                0 <= i < CHUNK_VOLUME ==> #[trigger] c.blocks@[i] == (Block {
                    active: false,
                    color_id: 0,
                }),
            c.vertex_buffer is None,
    {
        let mut blocks: Vec<Block> = Vec::new();
        let mut i: usize = 0;
        while i < CHUNK_VOLUME
            invariant
                i <= CHUNK_VOLUME,
                blocks@.len() == i,
                forall|j: int|
                    0 <= j < i ==> #[trigger] blocks@[j] == (Block { active: false, color_id: 0 }),
            decreases CHUNK_VOLUME - i,
        {
            blocks.push(Block::default());
            i = i + 1;
        }
        Chunk { blocks, palette, vertex_buffer: None }
    }

    /// The block at (x, y, z), or `None` when the coordinates fall
    /// outside the grid.
    pub fn get_block(&self, x: usize, y: usize, z: usize) -> (r: Option<Block>)
        requires
            self.wf(),
        ensures
            r == if in_chunk_bounds(x as int, y as int, z as int) {
                Some(self.spec_block_at(x as int, y as int, z as int))
            } else {
                None::<Block>
            },
    {
        if x < CHUNK_SIZE && y < CHUNK_SIZE && z < CHUNK_SIZE {
            Some(self.blocks[x * (CHUNK_SIZE * CHUNK_SIZE) + y * CHUNK_SIZE + z])
        } else {
            None
        }
    }

    /// Whether (x, y, z) is inside the grid and holds an active block.
    pub fn check_block(&self, x: usize, y: usize, z: usize) -> (r: bool)
        requires
            self.wf(),
        ensures
            r == self.spec_active(x as int, y as int, z as int),
    {
        match self.get_block(x, y, z) {
            Some(b) => b.is_active(),
            None => false,
        }
    }

    /// Stores `block` at (x, y, z), or reports the coordinates when they
    /// fall outside the grid.
    pub fn set_block(&mut self, block: Block, x: usize, y: usize, z: usize) -> (r: Result<
        (),
        InvalidBlockCoords,
    >)
        requires
            old(self).wf(),
        ensures
            final(self).wf(),
            final(self).palette@ == old(self).palette@,
            r is Ok <==> in_chunk_bounds(x as int, y as int, z as int),
            r is Ok ==> final(self).blocks@ == old(self).blocks@.update(
                block_index_spec(x as int, y as int, z as int),
                block,
            ),
            r is Err ==> final(self).blocks@ == old(self).blocks@ && r == Err::<
                (),
                InvalidBlockCoords,
            >(InvalidBlockCoords(x, y, z)),
    {
        if x >= CHUNK_SIZE || y >= CHUNK_SIZE || z >= CHUNK_SIZE {
            return Err(InvalidBlockCoords(x, y, z));
        }
        self.blocks.set(x * (CHUNK_SIZE * CHUNK_SIZE) + y * CHUNK_SIZE + z, block);
        Ok(())
    }
}

/// The x coordinate of the `i`-th cell in meshing order (x slowest).
pub open spec fn cell_x(i: int) -> int {
    i / (CHUNK_SIZE * CHUNK_SIZE) as int
}

/// The y coordinate of the `i`-th cell in meshing order.
pub open spec fn cell_y(i: int) -> int {
    (i / CHUNK_SIZE as int) % CHUNK_SIZE as int
}

/// The z coordinate of the `i`-th cell in meshing order (z fastest).
pub open spec fn cell_z(i: int) -> int {
    i % CHUNK_SIZE as int
}

/// Every cell index decomposes into in-bounds coordinates that flatten
/// back to it.
pub(crate) proof fn lemma_cell_decomposition(i: int)
    requires
        0 <= i < CHUNK_VOLUME,
    ensures
        in_chunk_bounds(cell_x(i), cell_y(i), cell_z(i)),
        block_index_spec(cell_x(i), cell_y(i), cell_z(i)) == i,
{
    let s = CHUNK_SIZE as int;
    lemma_fundamental_div_mod(i, s);
    lemma_mod_pos_bound(i, s);
    lemma_fundamental_div_mod(i / s, s);
    lemma_mod_pos_bound(i / s, s);
    lemma_div_denominator(i, s, s);
    lemma_div_pos_is_pos(i, s);
}

/// Flattening in-bounds coordinates and decomposing again returns them.
pub(crate) proof fn lemma_block_index_inverse(x: int, y: int, z: int)
    requires
        in_chunk_bounds(x, y, z),
    ensures
        0 <= block_index_spec(x, y, z) < CHUNK_VOLUME,
        cell_x(block_index_spec(x, y, z)) == x,
        cell_y(block_index_spec(x, y, z)) == y,
        cell_z(block_index_spec(x, y, z)) == z,
{
    let s = CHUNK_SIZE as int;
    let i = block_index_spec(x, y, z);
    assert(i == (x * s + y) * s + z) by (nonlinear_arith)
        requires
            i == x * (CHUNK_SIZE * CHUNK_SIZE) + y * CHUNK_SIZE + z && s == CHUNK_SIZE as int,
    ;
    lemma_fundamental_div_mod_converse(i, s, x * s + y, z);
    lemma_fundamental_div_mod_converse(x * s + y, s, x, y);
    lemma_div_denominator(i, s, s);
}

/// Appending an empty sequence changes nothing.
proof fn lemma_append_empty<A>(s: Seq<A>)
    ensures
        s + Seq::<A>::empty() == s,
{
    assert(s + Seq::<A>::empty() =~= s);
}

/// Folding six appends one at a time equals appending their
/// concatenation.
proof fn lemma_concat_chain6<A>(
    m: Seq<A>,
    f1: Seq<A>,
    f2: Seq<A>,
    f3: Seq<A>,
    f4: Seq<A>,
    f5: Seq<A>,
    f6: Seq<A>,
)
    ensures
        m + f1 + f2 + f3 + f4 + f5 + f6 == m + (f1 + f2 + f3 + f4 + f5 + f6),
{
    assert(m + f1 + f2 + f3 + f4 + f5 + f6 =~= m + (f1 + f2 + f3 + f4 + f5 + f6));
}

/// Whether the face of the block at (x, y, z) facing `d` is exposed:
/// the neighbor in that direction is outside the grid or inactive.
pub open spec fn face_visible(c: Chunk, x: int, y: int, z: int, d: FaceDirection) -> bool {
    match d {
        FaceDirection::Front => z == 0 || !c.spec_active(x, y, z - 1),
        FaceDirection::Back => !c.spec_active(x, y, z + 1),
        FaceDirection::Left => x == 0 || !c.spec_active(x - 1, y, z),
        FaceDirection::Right => !c.spec_active(x + 1, y, z),
        FaceDirection::Bottom => y == 0 || !c.spec_active(x, y - 1, z),
        FaceDirection::Top => !c.spec_active(x, y + 1, z),
    }
}

/// The vertices the face of the block at (x, y, z) facing `d`
/// contributes: its six corners when it is exposed, nothing otherwise.
pub open spec fn cell_face(c: Chunk, x: int, y: int, z: int, d: FaceDirection) -> Seq<Vertex> {
    if face_visible(c, x, y, z, d) {
        face_vertices(d, x, y, z, c.palette@[c.spec_block_at(x, y, z).color_id as int])
    } else {
        Seq::empty()
    }
}

/// The vertices the block at (x, y, z) contributes to the chunk mesh:
/// nothing when inactive, otherwise its exposed faces in the fixed order
/// front, back, left, right, bottom, top.
pub open spec fn cell_mesh(c: Chunk, x: int, y: int, z: int) -> Seq<Vertex> {
    if c.spec_active(x, y, z) {
        cell_face(c, x, y, z, FaceDirection::Front) + cell_face(c, x, y, z, FaceDirection::Back)
            + cell_face(c, x, y, z, FaceDirection::Left) + cell_face(
            c,
            x,
            y,
            z,
            FaceDirection::Right,
        ) + cell_face(c, x, y, z, FaceDirection::Bottom) + cell_face(
            c,
            x,
            y,
            z,
            FaceDirection::Top,
        )
    } else {
        Seq::empty()
    }
}

/// The mesh of the first `n` cells in meshing order.
pub open spec fn mesh_upto(c: Chunk, n: int) -> Seq<Vertex>
    decreases n,
{
    if n <= 0 {
        Seq::empty()
    } else {
        mesh_upto(c, n - 1) + cell_mesh(c, cell_x(n - 1), cell_y(n - 1), cell_z(n - 1))
    }
}

/// The face-culled mesh of the whole chunk.
pub open spec fn chunk_mesh_spec(c: Chunk) -> Seq<Vertex> {
    mesh_upto(c, CHUNK_VOLUME as int)
}

/// The byte position of block (x, y, z) in the packed chunk bytes:
/// four bytes per block, x varying fastest, then y, then z.
pub open spec fn packed_byte_index(x: int, y: int, z: int) -> int {
    4 * (z * (CHUNK_SIZE * CHUNK_SIZE) + y * CHUNK_SIZE + x)
}

/// Whether `bytes` is the packed form of the chunk: four bytes per
/// block — active flag, palette index, 0, 0 — in row-major order with x
/// fastest.
pub open spec fn packed_bytes_ok(c: Chunk, bytes: Seq<u8>) -> bool {
    &&& bytes.len() == CHUNK_BYTES
    &&& forall|x: int, y: int, z: int|
        in_chunk_bounds(x, y, z) ==> {
            let base = #[trigger] packed_byte_index(x, y, z);
            &&& bytes[base] == (if c.spec_block_at(x, y, z).active { 1u8 } else { 0u8 })
            &&& bytes[base + 1] == c.spec_block_at(x, y, z).color_id
            &&& bytes[base + 2] == 0u8
            &&& bytes[base + 3] == 0u8
        }
}

/// The copy one chunk contributes to the shared 3D texture atlas: the
/// packed source bytes plus the layout of the destination region.
pub struct ChunkUpload {
    /// Four bytes per block, x fastest, then y, then z.
    pub bytes: Vec<u8>,
    /// Byte offset of the chunk's slot: `chunk_index * CHUNK_BYTES`.
    pub source_offset: u64,
    /// Bytes per row of the copy: four per texel.
    pub bytes_per_row: u32,
    /// Rows per image slice of the copy.
    pub rows_per_image: u32,
    /// The copied region: one chunk of texels.
    pub extent: Extent3d,
}

/// The check `write_to_texture` applies before touching anything: the
/// first violated precondition, in the fixed order dimension, depth
/// multiple, width/height, chunk index, source coverage.
pub open spec fn load_chunk_check(descr: TextureDescriptor, chunk_index: u64) -> Option<
    LoadChunkError,
> {
    let depth = descr.depth_spec(1);
    if descr.dimension != TextureDimension::D3 {
        Some(
            LoadChunkError::InvalidTextureDimension {
                expected: TextureDimension::D3,
                found: descr.dimension,
            },
        )
    } else if depth as int % CHUNK_SIZE as int != 0 {
        Some(LoadChunkError::InvalidTextureDepth(depth))
    } else if descr.width != CHUNK_SIZE as u32 || descr.height != CHUNK_SIZE as u32 {
        Some(
            LoadChunkError::InvalidTextureSize {
                expected: Extent3d {
                    width: CHUNK_SIZE as u32,
                    height: CHUNK_SIZE as u32,
                    depth_or_array_layers: 1,
                },
                found: Extent3d {
                    width: descr.width,
                    height: descr.height,
                    depth_or_array_layers: depth,
                },
            },
        )
    } else if chunk_index >= depth as int / CHUNK_SIZE as int {
        Some(
            LoadChunkError::InvalidChunksIndex {
                max: (depth / CHUNK_SIZE as u32) as u64,
                found: chunk_index,
            },
        )
    } else if chunk_index as int * CHUNK_BYTES as int + CHUNK_BYTES as int > CHUNK_BYTES as int {
        Some(
            LoadChunkError::SourceBufferOverrun {
                required: (chunk_index as int * CHUNK_BYTES as int + CHUNK_BYTES as int) as u64,
                available: CHUNK_BYTES as u64,
            },
        )
    } else {
        None
    }
}

impl Chunk {
    /// Packs the chunk into four bytes per block — active flag, palette
    /// index, 0, 0 — with x varying fastest, then y, then z.
    fn data_to_u8_slice(&self) -> (bytes: Vec<u8>)
        requires
            self.wf(),
        ensures
            packed_bytes_ok(*self, bytes@),
    {
        let mut bytes: Vec<u8> = Vec::new();
        let mut j: usize = 0;
        while j < CHUNK_VOLUME
            invariant
                self.wf(),
                j <= CHUNK_VOLUME,
                bytes@.len() == 4 * j,
                forall|k: int|
                    0 <= k < j ==> {
                        let b = self.spec_block_at(cell_z(k), cell_y(k), cell_x(k));
                        &&& bytes@[#[trigger] (4 * k)] == (if b.active { 1u8 } else { 0u8 })
                        &&& bytes@[4 * k + 1] == b.color_id
                        &&& bytes@[4 * k + 2] == 0u8
                        &&& bytes@[4 * k + 3] == 0u8
                    },
            decreases CHUNK_VOLUME - j,
        {
            // The outer grid axis is z here, so the decomposition that
            // moves slowest names z and the fastest names x.
            let z = j / (CHUNK_SIZE * CHUNK_SIZE);
            let y = (j / CHUNK_SIZE) % CHUNK_SIZE;
            let x = j % CHUNK_SIZE;
            proof {
                lemma_cell_decomposition(j as int);
            }
            let block = self.get_block(x, y, z).unwrap();
            bytes.push(if block.is_active() { 1 } else { 0 });
            bytes.push(block.color());
            bytes.push(0);
            bytes.push(0);
            j = j + 1;
        }
        proof {
            assert forall|x: int, y: int, z: int| in_chunk_bounds(x, y, z) implies {
                let base = #[trigger] packed_byte_index(x, y, z);
                &&& bytes@[base] == (if self.spec_block_at(x, y, z).active { 1u8 } else { 0u8 })
                &&& bytes@[base + 1] == self.spec_block_at(x, y, z).color_id
                &&& bytes@[base + 2] == 0u8
                &&& bytes@[base + 3] == 0u8
            } by {
                lemma_block_index_inverse(z, y, x);
                let k = block_index_spec(z, y, x);
                assert(packed_byte_index(x, y, z) == 4 * k);
            }
        }
        bytes
    }

    /// Validates the atlas texture and the chunk's slot, then produces
    /// the packed bytes and the copy layout for that slot and writes the
    /// chunk's palette into its slot of the shared palette buffer.  All
    /// violated preconditions are reported before anything is packed or
    /// written, in the fixed order dimension, depth multiple,
    /// width/height, chunk index, source coverage.
    pub fn write_to_texture(
        &self,
        chunks_texture: &Texture,
        palettes_buffer: &mut Buffer<Color>,
        chunk_index: u64,
    ) -> (r: Result<ChunkUpload, LoadChunkError>)
        requires
            self.wf(),
            old(palettes_buffer).wf(),
            self.palette@.len() <= old(palettes_buffer).capacity,
        ensures
            final(palettes_buffer).wf(),
            final(palettes_buffer).capacity == old(palettes_buffer).capacity,
            final(palettes_buffer).usage == old(palettes_buffer).usage,
            final(palettes_buffer).generation == old(palettes_buffer).generation,
            r is Ok <==> load_chunk_check(chunks_texture.description, chunk_index) is None,
            r matches Err(e) ==> {
                &&& Some(e) == load_chunk_check(chunks_texture.description, chunk_index)
                &&& final(palettes_buffer).contents@ == old(palettes_buffer).contents@
            },
            r matches Ok(upload) ==> {
                &&& packed_bytes_ok(*self, upload.bytes@)
                &&& upload.source_offset == chunk_index as int * CHUNK_BYTES as int
                &&& upload.bytes_per_row == 4 * chunks_texture.description.width
                &&& upload.rows_per_image == chunks_texture.description.height
                &&& upload.extent == (Extent3d {
                    width: CHUNK_SIZE as u32,
                    height: CHUNK_SIZE as u32,
                    depth_or_array_layers: CHUNK_SIZE as u32,
                })
            },
            r is Ok ==> forall|i: int|
                0 <= i < old(palettes_buffer).capacity
                    ==> final(palettes_buffer).contents@[i] == (
                if chunk_index <= i < chunk_index + self.palette@.len() {
                    Some(self.palette@[i - chunk_index])
                } else {
                    old(palettes_buffer).contents@[i]
                }),
    {
        let descr = chunks_texture.description();

        if descr.dimension != TextureDimension::D3 {
            return Err(
                LoadChunkError::InvalidTextureDimension {
                    expected: TextureDimension::D3,
                    found: descr.dimension,
                },
            );
        }

        let depth = descr.depth_or(1);

        if depth % (CHUNK_SIZE as u32) != 0 {
            return Err(LoadChunkError::InvalidTextureDepth(depth));
        }

        if descr.width != CHUNK_SIZE as u32 || descr.height != CHUNK_SIZE as u32 {
            return Err(
                LoadChunkError::InvalidTextureSize {
                    expected: Extent3d {
                        width: CHUNK_SIZE as u32,
                        height: CHUNK_SIZE as u32,
                        depth_or_array_layers: 1,
                    },
                    found: Extent3d {
                        width: descr.width,
                        height: descr.height,
                        depth_or_array_layers: depth,
                    },
                },
            );
        }

        let max_chunks = (depth / (CHUNK_SIZE as u32)) as u64;
        if chunk_index >= max_chunks {
            return Err(LoadChunkError::InvalidChunksIndex { max: max_chunks, found: chunk_index });
        }

        // The packed source always covers exactly one chunk, so a copy
        // region starting at a later slot's offset would overrun it.
        let source_offset = chunk_index * (CHUNK_BYTES as u64);
        if chunk_index > 0 {
            return Err(
                LoadChunkError::SourceBufferOverrun {
                    required: source_offset + CHUNK_BYTES as u64,
                    available: CHUNK_BYTES as u64,
                },
            );
        }

        let bytes = self.data_to_u8_slice();

        let fill_result = palettes_buffer.fill_exact(chunk_index, self.palette.as_slice());
        proof {
            assert(fill_result is Ok);
        }

        Ok(
            ChunkUpload {
                bytes,
                source_offset,
                bytes_per_row: 4 * descr.width,
                rows_per_image: descr.height,
                extent: Extent3d {
                    width: CHUNK_SIZE as u32,
                    height: CHUNK_SIZE as u32,
                    depth_or_array_layers: CHUNK_SIZE as u32,
                },
            },
        )
    }

    /// Generates the face-culled triangle mesh of the chunk: every face
    /// of an active block that borders the grid edge or an inactive
    /// neighbor contributes six vertices carrying the block's
    /// palette-resolved color.
    #[verifier::rlimit(100)]
    #[verifier::spinoff_prover]
    pub fn generate_mesh(&self) -> (m: Mesh)
        requires
            self.wf(),
            self.palette_indices_valid(),
        ensures
            m.vertex_data@ == chunk_mesh_spec(*self),
    {
        let mut mesh = Mesh::default();
        let mut i: usize = 0;
        while i < CHUNK_VOLUME
            invariant
                self.wf(),
                self.palette_indices_valid(),
                i <= CHUNK_VOLUME,
                mesh.vertex_data@ == mesh_upto(*self, i as int),
            decreases CHUNK_VOLUME - i,
        {
            let x = i / (CHUNK_SIZE * CHUNK_SIZE);
            let y = (i / CHUNK_SIZE) % CHUNK_SIZE;
            let z = i % CHUNK_SIZE;
            proof {
                lemma_cell_decomposition(i as int);
            }
            let block = self.get_block(x, y, z).unwrap();
            let ghost m0 = mesh.vertex_data@;
            let ghost f1 = cell_face(*self, x as int, y as int, z as int, FaceDirection::Front);
            let ghost f2 = cell_face(*self, x as int, y as int, z as int, FaceDirection::Back);
            let ghost f3 = cell_face(*self, x as int, y as int, z as int, FaceDirection::Left);
            let ghost f4 = cell_face(*self, x as int, y as int, z as int, FaceDirection::Right);
            let ghost f5 = cell_face(*self, x as int, y as int, z as int, FaceDirection::Bottom);
            let ghost f6 = cell_face(*self, x as int, y as int, z as int, FaceDirection::Top);

            if block.is_active() {
                proof {
                    assert(self.spec_block_at(x as int, y as int, z as int).color_id
                        < self.palette@.len());
                }
                let color = self.palette[block.color() as usize];

                if z == 0 || !self.check_block(x, y, z - 1) {
                    mesh.add_front_face(x, y, z, color);
                } else {
                    proof {
                        lemma_append_empty(m0);
                    }
                }
                proof {
                    assert(mesh.vertex_data@ == m0 + f1);
                }
                let ghost m1 = mesh.vertex_data@;
                if !self.check_block(x, y, z + 1) {
                    mesh.add_back_face(x, y, z, color);
                } else {
                    proof {
                        lemma_append_empty(m1);
                    }
                }
                proof {
                    assert(mesh.vertex_data@ == m0 + f1 + f2);
                }
                let ghost m2 = mesh.vertex_data@;
                if x == 0 || !self.check_block(x - 1, y, z) {
                    mesh.add_left_face(x, y, z, color);
                } else {
                    proof {
                        lemma_append_empty(m2);
                    }
                }
                proof {
                    assert(mesh.vertex_data@ == m0 + f1 + f2 + f3);
                }
                let ghost m3 = mesh.vertex_data@;
                if !self.check_block(x + 1, y, z) {
                    mesh.add_right_face(x, y, z, color);
                } else {
                    proof {
                        lemma_append_empty(m3);
                    }
                }
                proof {
                    assert(mesh.vertex_data@ == m0 + f1 + f2 + f3 + f4);
                }
                let ghost m4 = mesh.vertex_data@;
                if y == 0 || !self.check_block(x, y - 1, z) {
                    mesh.add_bottom_face(x, y, z, color);
                } else {
                    proof {
                        lemma_append_empty(m4);
                    }
                }
                proof {
                    assert(mesh.vertex_data@ == m0 + f1 + f2 + f3 + f4 + f5);
                }
                let ghost m5 = mesh.vertex_data@;
                if !self.check_block(x, y + 1, z) {
                    mesh.add_top_face(x, y, z, color);
                } else {
                    proof {
                        lemma_append_empty(m5);
                    }
                }
                proof {
                    assert(mesh.vertex_data@ == m0 + f1 + f2 + f3 + f4 + f5 + f6);
                    lemma_concat_chain6(m0, f1, f2, f3, f4, f5, f6);
                    assert(cell_mesh(*self, x as int, y as int, z as int) == f1 + f2 + f3 + f4 + f5
                        + f6);
                }
            } else {
                proof {
                    lemma_append_empty(m0);
                }
            }
            proof {
                assert(mesh.vertex_data@ == m0 + cell_mesh(*self, x as int, y as int, z as int));
                assert(mesh.vertex_data@ == mesh_upto(*self, i as int + 1));
            }
            i = i + 1;
        }
        mesh
    }
}

impl Chunk {
    /// Regenerates the chunk's mesh and writes it to the chunk's vertex
    /// buffer, registering a fresh one on the first call.
    pub fn update(&mut self, renderer: &mut Renderer)
        requires
            old(self).wf(),
            old(self).palette_indices_valid(),
            old(renderer).wf(),
            old(self).vertex_buffer matches Some(id) ==> id.0 < old(
                renderer,
            ).vertex_buffers@.len() && old(renderer).vertex_buffers@[id.0 as int].generation
                < u64::MAX,
        ensures
            final(self).wf(),
            final(self).blocks@ == old(self).blocks@,
            final(self).palette@ == old(self).palette@,
            final(renderer).wf(),
            final(renderer).size == old(renderer).size,
            final(renderer).depth_texture == old(renderer).depth_texture,
            final(self).vertex_buffer is Some,
            old(self).vertex_buffer is Some ==> final(self).vertex_buffer == old(
                self,
            ).vertex_buffer && final(renderer).vertex_buffers@.len() == old(
                renderer,
            ).vertex_buffers@.len(),
            old(self).vertex_buffer is None ==> final(self).vertex_buffer == Some(
                BufferId(old(renderer).vertex_buffers@.len() as usize),
            ) && final(renderer).vertex_buffers@.len() == old(renderer).vertex_buffers@.len() + 1,
            ({
                let id = final(self).vertex_buffer->Some_0;
                let b = final(renderer).vertex_buffers@[id.0 as int];
                &&& id.0 < final(renderer).vertex_buffers@.len()
                &&& b.capacity >= chunk_mesh_spec(*old(self)).len()
                &&& forall|i: int|
                    0 <= i < chunk_mesh_spec(*old(self)).len() ==> #[trigger] b.contents@[i]
                        == Some(chunk_mesh_spec(*old(self))[i])
            }),
            old(self).vertex_buffer matches Some(id) ==> (forall|i: int|
                0 <= i < old(renderer).vertex_buffers@.len() && i != id.0
                    ==> #[trigger] final(renderer).vertex_buffers@[i]
                    == old(renderer).vertex_buffers@[i]),
            old(self).vertex_buffer is None ==> (forall|i: int|
                0 <= i < old(renderer).vertex_buffers@.len()
                    ==> #[trigger] final(renderer).vertex_buffers@[i]
                    == old(renderer).vertex_buffers@[i]),
    {
        let mesh = self.generate_mesh();

        let id = match self.vertex_buffer {
            Some(id) => id,
            None => {
                let id = renderer.create_vertex_buffer(mesh.vertex_data.len());
                self.vertex_buffer = Some(id);
                id
            },
        };

        let write_result = renderer.update_vertex_buffer(id, mesh.vertex_data.as_slice());
        proof {
            assert(write_result is Ok);
        }
    }

    /// The id of the chunk's vertex buffer.  Asking before `update` has
    /// registered one is a wiring mistake, so it is ruled out here.
    pub fn vertex_buffer(&self) -> (r: BufferId)
        requires
            self.vertex_buffer is Some,
        ensures
            Some(r) == self.vertex_buffer,
    {
        match self.vertex_buffer {
            Some(id) => id,
            None => BufferId(0),
        }
    }
}

/// 1 when the face of the block at (x, y, z) facing `d` is exposed.
pub open spec fn face_count(c: Chunk, x: int, y: int, z: int, d: FaceDirection) -> int {
    if face_visible(c, x, y, z, d) {
        1int
    } else {
        0int
    }
}

/// How many of the six faces of the block at (x, y, z) are exposed.
pub open spec fn visible_face_count(c: Chunk, x: int, y: int, z: int) -> int {
    face_count(c, x, y, z, FaceDirection::Front) + face_count(c, x, y, z, FaceDirection::Back)
        + face_count(c, x, y, z, FaceDirection::Left) + face_count(
        c,
        x,
        y,
        z,
        FaceDirection::Right,
    ) + face_count(c, x, y, z, FaceDirection::Bottom) + face_count(c, x, y, z, FaceDirection::Top)
}

/// The exposed faces of active blocks among the first `n` cells.
pub open spec fn visible_faces_upto(c: Chunk, n: int) -> int
    decreases n,
{
    if n <= 0 {
        0
    } else {
        visible_faces_upto(c, n - 1) + (
        if c.spec_active(cell_x(n - 1), cell_y(n - 1), cell_z(n - 1)) {
            visible_face_count(c, cell_x(n - 1), cell_y(n - 1), cell_z(n - 1))
        } else {
            0int
        })
    }
}

/// Each face list holds exactly six vertices.
proof fn lemma_face_vertices_len(d: FaceDirection, x: int, y: int, z: int, color: Color)
    ensures
        face_vertices(d, x, y, z, color).len() == 6,
{
}

/// A cell's mesh holds six vertices per exposed face.
proof fn lemma_cell_mesh_len(c: Chunk, x: int, y: int, z: int)
    ensures
        cell_mesh(c, x, y, z).len() == if c.spec_active(x, y, z) {
            6 * visible_face_count(c, x, y, z)
        } else {
            0int
        },
{
    if c.spec_active(x, y, z) {
        let color = c.palette@[c.spec_block_at(x, y, z).color_id as int];
        lemma_face_vertices_len(FaceDirection::Front, x, y, z, color);
        lemma_face_vertices_len(FaceDirection::Back, x, y, z, color);
        lemma_face_vertices_len(FaceDirection::Left, x, y, z, color);
        lemma_face_vertices_len(FaceDirection::Right, x, y, z, color);
        lemma_face_vertices_len(FaceDirection::Bottom, x, y, z, color);
        lemma_face_vertices_len(FaceDirection::Top, x, y, z, color);
    }
}

/// Face-culling vertex count: the mesh of the first `n` cells holds
/// exactly six vertices per exposed face of an active block.
pub proof fn lemma_mesh_len_upto(c: Chunk, n: int)
    requires
        0 <= n <= CHUNK_VOLUME,
    ensures
        mesh_upto(c, n).len() == 6 * visible_faces_upto(c, n),
    decreases n,
{
    if n > 0 {
        lemma_mesh_len_upto(c, n - 1);
        lemma_cell_mesh_len(c, cell_x(n - 1), cell_y(n - 1), cell_z(n - 1));
    }
}

/// Face-culling vertex count for the whole chunk: six vertices per
/// exposed face of an active block.
pub proof fn lemma_chunk_mesh_count(c: Chunk)
    ensures
        chunk_mesh_spec(c).len() == 6 * visible_faces_upto(c, CHUNK_VOLUME as int),
{
    lemma_mesh_len_upto(c, CHUNK_VOLUME as int);
}

/// No block other than (bx, by, bz) is active.
pub open spec fn only_active(c: Chunk, bx: int, by: int, bz: int) -> bool {
    forall|x: int, y: int, z: int|
        in_chunk_bounds(x, y, z) && !(x == bx && y == by && z == bz) ==> !(
        #[trigger] c.spec_block_at(x, y, z)).active
}

/// A single isolated active block has all six faces exposed and nothing
/// else contributes: its chunk meshes to exactly 6 faces — 36 vertices.
pub proof fn lemma_single_block_mesh(c: Chunk, bx: int, by: int, bz: int)
    requires
        c.wf(),
        in_chunk_bounds(bx, by, bz),
        c.spec_block_at(bx, by, bz).active,
        only_active(c, bx, by, bz),
    ensures
        chunk_mesh_spec(c).len() == 36,
{
    lemma_single_block_faces(c, bx, by, bz, CHUNK_VOLUME as int);
    lemma_block_index_inverse(bx, by, bz);
    lemma_chunk_mesh_count(c);
}

/// The exposed-face count of a single isolated active block: 6 once its
/// cell has been passed, 0 before.
proof fn lemma_single_block_faces(c: Chunk, bx: int, by: int, bz: int, n: int)
    requires
        c.wf(),
        in_chunk_bounds(bx, by, bz),
        c.spec_block_at(bx, by, bz).active,
        only_active(c, bx, by, bz),
        0 <= n <= CHUNK_VOLUME,
    ensures
        visible_faces_upto(c, n) == if block_index_spec(bx, by, bz) < n {
            6int
        } else {
            0int
        },
    decreases n,
{
    lemma_block_index_inverse(bx, by, bz);
    if n > 0 {
        lemma_single_block_faces(c, bx, by, bz, n - 1);
        lemma_cell_decomposition(n - 1);
        let x = cell_x(n - 1);
        let y = cell_y(n - 1);
        let z = cell_z(n - 1);
        if x == bx && y == by && z == bz {
            assert(visible_face_count(c, x, y, z) == 6);
        } else {
            assert(!c.spec_block_at(x, y, z).active);
        }
    }
}

/// No block other than (x1, y1, z1) and (x2, y2, z2) is active.
pub open spec fn only_two_active(
    c: Chunk,
    x1: int,
    y1: int,
    z1: int,
    x2: int,
    y2: int,
    z2: int,
) -> bool {
    forall|x: int, y: int, z: int|
        in_chunk_bounds(x, y, z) && !(x == x1 && y == y1 && z == z1) && !(x == x2 && y == y2 && z
            == z2) ==> !(#[trigger] c.spec_block_at(x, y, z)).active
}

/// Two active blocks sharing a face suppress exactly the two faces at
/// their shared boundary: the chunk meshes to 10 faces — 60 vertices.
/// `d` is the positive axis direction pointing from the first block to
/// its neighbor.
pub proof fn lemma_adjacent_blocks_mesh(c: Chunk, x: int, y: int, z: int, d: FaceDirection)
    requires
        c.wf(),
        d == FaceDirection::Back || d == FaceDirection::Right || d == FaceDirection::Top,
        in_chunk_bounds(x, y, z),
        in_chunk_bounds(
            x + d.normal_spec().0,
            y + d.normal_spec().1,
            z + d.normal_spec().2,
        ),
        c.spec_block_at(x, y, z).active,
        c.spec_block_at(
            x + d.normal_spec().0,
            y + d.normal_spec().1,
            z + d.normal_spec().2,
        ).active,
        only_two_active(
            c,
            x,
            y,
            z,
            x + d.normal_spec().0,
            y + d.normal_spec().1,
            z + d.normal_spec().2,
        ),
    ensures
        chunk_mesh_spec(c).len() == 60,
{
    lemma_adjacent_blocks_faces(c, x, y, z, d, CHUNK_VOLUME as int);
    lemma_block_index_inverse(x, y, z);
    lemma_block_index_inverse(
        x + d.normal_spec().0,
        y + d.normal_spec().1,
        z + d.normal_spec().2,
    );
    lemma_chunk_mesh_count(c);
}

/// The exposed-face count of two face-adjacent active blocks: each
/// contributes 5 faces once its cell has been passed.
proof fn lemma_adjacent_blocks_faces(c: Chunk, x: int, y: int, z: int, d: FaceDirection, n: int)
    requires
        c.wf(),
        d == FaceDirection::Back || d == FaceDirection::Right || d == FaceDirection::Top,
        in_chunk_bounds(x, y, z),
        in_chunk_bounds(
            x + d.normal_spec().0,
            y + d.normal_spec().1,
            z + d.normal_spec().2,
        ),
        c.spec_block_at(x, y, z).active,
        c.spec_block_at(
            x + d.normal_spec().0,
            y + d.normal_spec().1,
            z + d.normal_spec().2,
        ).active,
        only_two_active(
            c,
            x,
            y,
            z,
            x + d.normal_spec().0,
            y + d.normal_spec().1,
            z + d.normal_spec().2,
        ),
        0 <= n <= CHUNK_VOLUME,
    ensures
        visible_faces_upto(c, n) == (if block_index_spec(x, y, z) < n {
            5int
        } else {
            0int
        }) + (if block_index_spec(
            x + d.normal_spec().0,
            y + d.normal_spec().1,
            z + d.normal_spec().2,
        ) < n {
            5int
        } else {
            0int
        }),
    decreases n,
{
    let x2 = x + d.normal_spec().0;
    let y2 = y + d.normal_spec().1;
    let z2 = z + d.normal_spec().2;
    lemma_block_index_inverse(x, y, z);
    lemma_block_index_inverse(x2, y2, z2);
    if n > 0 {
        lemma_adjacent_blocks_faces(c, x, y, z, d, n - 1);
        lemma_cell_decomposition(n - 1);
        let ax = cell_x(n - 1);
        let ay = cell_y(n - 1);
        let az = cell_z(n - 1);
        if ax == x && ay == y && az == z {
            assert(visible_face_count(c, ax, ay, az) == 5);
        } else if ax == x2 && ay == y2 && az == z2 {
            assert(visible_face_count(c, ax, ay, az) == 5);
        } else {
            assert(!c.spec_block_at(ax, ay, az).active);
        }
    }
}

impl Default for Chunk {
    /// A chunk of default blocks over an empty palette.
    fn default() -> (c: Chunk)
        ensures
            c.wf(),
            c.palette@ == Seq::<Color>::empty(),
            forall|i: int|
                0 <= i < CHUNK_VOLUME ==> #[trigger] c.blocks@[i] == (Block {
                    active: false,
                    color_id: 0,
                }),
    {
        Chunk::new(Vec::new())
    }
}

} // verus!
