//! A voxel model and its partition into chunks.
//!
//! A [`VoxelModel`] is a dense coordinate → block mapping over a bounding
//! [`Size`], together with a palette.  `into_chunks` partitions it into a
//! dense grid of chunks: voxel (x, y, z) lands in chunk
//! (x / CHUNK_SIZE, y / CHUNK_SIZE, z / CHUNK_SIZE) at local offset
//! (x % CHUNK_SIZE, y % CHUNK_SIZE, z % CHUNK_SIZE), and every chunk
//! carries the world offset of its grid cell.  Chunks with no voxels are
//! still produced, so the grid covers the model densely.

use vstd::prelude::*;
use vstd::arithmetic::div_mod::{
    lemma_div_is_ordered, lemma_div_pos_is_pos, lemma_fundamental_div_mod,
    lemma_fundamental_div_mod_converse, lemma_mod_pos_bound,
};

use crate::block::Block;
use crate::chunk::{
    cell_x, cell_y, cell_z, in_chunk_bounds, lemma_block_index_inverse, lemma_cell_decomposition,
    Chunk, CHUNK_SIZE, CHUNK_VOLUME,
};
use crate::types::Color;

verus! {

/// The bounding size of a voxel model, in blocks per axis.
#[derive(Clone, Copy, Debug, Hash, PartialEq, Eq, Structural)]
pub struct Size {
    pub x: usize,
    pub y: usize,
    pub z: usize,
}

impl Default for Size {
    /// The empty size.
    fn default() -> (s: Size)
        ensures
            s == (Size { x: 0, y: 0, z: 0 }),
    {
        Size { x: 0, y: 0, z: 0 }
    }
}

/// One voxel as an outside model loader hands it over: its coordinates
/// within the model bounds and its palette index.
#[derive(Clone, Copy, Debug, PartialEq, Eq, Structural)]
pub struct Voxel {
    pub x: u8,
    pub y: u8,
    pub z: u8,
    pub color_id: u8,
}

/// The world offset of a chunk: its grid coordinate times `CHUNK_SIZE`.
#[derive(Clone, Copy, Debug, PartialEq, Eq, Structural)]
pub struct ChunkTranslation {
    pub x: usize,
    pub y: usize,
    pub z: usize,
}

/// A chunk paired with its world offset.
#[derive(Clone, Debug)]
pub struct ChunkBundle {
    pub chunk: Chunk,
    pub transform: ChunkTranslation,
}

/// The index of voxel (x, y, z) in a model's flat block list: x varies
/// slowest, z fastest.
pub open spec fn model_index_spec(size: Size, x: int, y: int, z: int) -> int {
    (x * size.y + y) * size.z + z
}

/// Whether (x, y, z) lies inside the model bounds.
pub open spec fn in_model_bounds(size: Size, x: int, y: int, z: int) -> bool {
    &&& 0 <= x < size.x
    &&& 0 <= y < size.y
    &&& 0 <= z < size.z
}

/// A flat index over three nested axes stays inside the total volume,
/// and so do its partial sums.
proof fn lemma_flat_index_bound(nx: int, ny: int, nz: int, x: int, y: int, z: int)
    requires
        0 <= x < nx,
        0 <= y < ny,
        0 <= z < nz,
    ensures
        0 <= (x * ny + y) * nz + z < nx * ny * nz,
        0 <= x * ny + y < nx * ny,
        nx * ny <= nx * ny * nz,
{
    assert((0 <= (x * ny + y) * nz + z < nx * ny * nz) && (0 <= x * ny + y < nx * ny) && (nx * ny
        <= nx * ny * nz)) by (nonlinear_arith)
        requires
            0 <= x < nx && 0 <= y < ny && 0 <= z < nz,
    ;
}

/// How many chunks cover `n` blocks along one axis: one chunk per full
/// `CHUNK_SIZE` stretch, plus one more for the remainder.
pub open spec fn chunks_per_axis(n: int) -> int {
    n / CHUNK_SIZE as int + 1
}

/// The position of chunk (cx, cy, cz) in the produced bundle list: cx
/// varies slowest, cz fastest.
pub open spec fn chunk_grid_index(size: Size, cx: int, cy: int, cz: int) -> int {
    (cx * chunks_per_axis(size.y as int) + cy) * chunks_per_axis(size.z as int) + cz
}

/// The block chunk (cx, cy, cz) must hold at local offset (lx, ly, lz):
/// the model's block at the corresponding global coordinates, or an
/// inactive block when those fall outside the model bounds.
pub open spec fn local_block_expected(
    m: VoxelModel,
    cx: int,
    cy: int,
    cz: int,
    lx: int,
    ly: int,
    lz: int,
) -> Block {
    let gx = cx * CHUNK_SIZE as int + lx;
    let gy = cy * CHUNK_SIZE as int + ly;
    let gz = cz * CHUNK_SIZE as int + lz;
    if in_model_bounds(m.size, gx, gy, gz) {
        m.spec_block_at(gx, gy, gz)
    } else {
        Block { active: false, color_id: 0 }
    }
}

/// Everything the partition promises of the bundle produced for grid
/// cell (cx, cy, cz).
pub open spec fn bundle_ok(m: VoxelModel, b: ChunkBundle, cx: int, cy: int, cz: int) -> bool {
    &&& b.chunk.wf()
    &&& b.chunk.palette@ == m.palette@
    &&& b.transform == (ChunkTranslation {
        x: (cx * CHUNK_SIZE as int) as usize,
        y: (cy * CHUNK_SIZE as int) as usize,
        z: (cz * CHUNK_SIZE as int) as usize,
    })
    &&& forall|lx: int, ly: int, lz: int|
        in_chunk_bounds(lx, ly, lz) ==> #[trigger] b.chunk.spec_block_at(lx, ly, lz)
            == local_block_expected(m, cx, cy, cz, lx, ly, lz)
}

/// The full partition contract: one bundle per grid cell, in grid order,
/// each covering exactly its cell of the model.
pub open spec fn partitioned(m: VoxelModel, chunks: Seq<ChunkBundle>) -> bool {
    let nx = chunks_per_axis(m.size.x as int);
    let ny = chunks_per_axis(m.size.y as int);
    let nz = chunks_per_axis(m.size.z as int);
    &&& chunks.len() == nx * ny * nz
    &&& forall|cx: int, cy: int, cz: int|
        0 <= cx < nx && 0 <= cy < ny && 0 <= cz < nz ==> {
            &&& 0 <= #[trigger] chunk_grid_index(m.size, cx, cy, cz) < chunks.len()
            &&& bundle_ok(m, chunks[chunk_grid_index(m.size, cx, cy, cz)], cx, cy, cz)
        }
}

/// Voxel partition completeness: every coordinate of the model lands in
/// exactly one (chunk, local offset) pair of the partition.  The chunk is
/// the one at grid cell (x / CHUNK_SIZE, y / CHUNK_SIZE, z / CHUNK_SIZE),
/// the local offset is (x % CHUNK_SIZE, y % CHUNK_SIZE, z % CHUNK_SIZE),
/// that slot holds exactly the model's block at (x, y, z), and no other
/// (chunk, local offset) pair reaches the same coordinate.
pub proof fn lemma_partition_complete(
    m: VoxelModel,
    chunks: Seq<ChunkBundle>,
    x: int,
    y: int,
    z: int,
)
    requires
        m.wf(),
        partitioned(m, chunks),
        in_model_bounds(m.size, x, y, z),
    ensures
        ({
            let s = CHUNK_SIZE as int;
            let cx = x / s;
            let cy = y / s;
            let cz = z / s;
            &&& 0 <= cx < chunks_per_axis(m.size.x as int)
            &&& 0 <= cy < chunks_per_axis(m.size.y as int)
            &&& 0 <= cz < chunks_per_axis(m.size.z as int)
            &&& in_chunk_bounds(x % s, y % s, z % s)
            &&& chunks[chunk_grid_index(m.size, cx, cy, cz)].chunk.spec_block_at(
                x % s,
                y % s,
                z % s,
            ) == m.spec_block_at(x, y, z)
        }),
        forall|cx: int, cy: int, cz: int, lx: int, ly: int, lz: int|
            #![trigger chunk_grid_index(m.size, cx, cy, cz), in_chunk_bounds(lx, ly, lz)]
            0 <= cx && 0 <= cy && 0 <= cz && in_chunk_bounds(lx, ly, lz) && cx
                * CHUNK_SIZE as int + lx == x && cy * CHUNK_SIZE as int + ly == y && cz
                * CHUNK_SIZE as int + lz == z ==> cx == x / CHUNK_SIZE as int && cy == y
                / CHUNK_SIZE as int && cz == z / CHUNK_SIZE as int && lx == x % CHUNK_SIZE as int
                && ly == y % CHUNK_SIZE as int && lz == z % CHUNK_SIZE as int,
{
    let s = CHUNK_SIZE as int;
    lemma_fundamental_div_mod(x, s);
    lemma_mod_pos_bound(x, s);
    lemma_fundamental_div_mod(y, s);
    lemma_mod_pos_bound(y, s);
    lemma_fundamental_div_mod(z, s);
    lemma_mod_pos_bound(z, s);
    lemma_div_is_ordered(x, m.size.x as int, s);
    lemma_div_is_ordered(y, m.size.y as int, s);
    lemma_div_is_ordered(z, m.size.z as int, s);
    lemma_div_pos_is_pos(x, s);
    lemma_div_pos_is_pos(y, s);
    lemma_div_pos_is_pos(z, s);
    let cx = x / s;
    let cy = y / s;
    let cz = z / s;
    assert(cx * s + x % s == x) by (nonlinear_arith)
        requires
            x == s * cx + x % s,
    ;
    assert(cy * s + y % s == y) by (nonlinear_arith)
        requires
            y == s * cy + y % s,
    ;
    assert(cz * s + z % s == z) by (nonlinear_arith)
        requires
            z == s * cz + z % s,
    ;
    assert(bundle_ok(m, chunks[chunk_grid_index(m.size, cx, cy, cz)], cx, cy, cz));
    assert forall|acx: int, acy: int, acz: int, lx: int, ly: int, lz: int|
        #![trigger chunk_grid_index(m.size, acx, acy, acz), in_chunk_bounds(lx, ly, lz)]
        0 <= acx && 0 <= acy && 0 <= acz && in_chunk_bounds(lx, ly, lz) && acx * s + lx
            == x && acy * s + ly == y && acz * s + lz == z implies acx == x / s && acy == y / s
        && acz == z / s && lx == x % s && ly == y % s && lz == z % s by {
        lemma_fundamental_div_mod_converse(x, s, acx, lx);
        lemma_fundamental_div_mod_converse(y, s, acy, ly);
        lemma_fundamental_div_mod_converse(z, s, acz, lz);
    }
}

/// Lexicographic order on grid cells, matching production order.
spec fn lex_lt(ax: int, ay: int, az: int, bx: int, by: int, bz: int) -> bool {
    ||| ax < bx
    ||| (ax == bx && ay < by)
    ||| (ax == bx && ay == by && az < bz)
}

/// The running length of the bundle list when production reaches grid
/// cell (cx, cy, cz).
spec fn flat3(cx: int, cy: int, cz: int, ny: int, nz: int) -> int {
    cx * (ny * nz) + cy * nz + cz
}

/// A chunk's base coordinate stays within the axis it covers.
proof fn lemma_chunk_base_in_range(n: int, c: int)
    requires
        0 <= n,
        0 <= c < chunks_per_axis(n),
    ensures
        0 <= c * CHUNK_SIZE as int <= n,
{
    lemma_fundamental_div_mod(n, CHUNK_SIZE as int);
    lemma_mod_pos_bound(n, CHUNK_SIZE as int);
    assert(c * CHUNK_SIZE as int <= (n / CHUNK_SIZE as int) * CHUNK_SIZE as int)
        by (nonlinear_arith)
        requires
            c <= n / CHUNK_SIZE as int && CHUNK_SIZE as int > 0,
    ;
    assert((n / CHUNK_SIZE as int) * CHUNK_SIZE as int <= n) by (nonlinear_arith)
        requires
            n == CHUNK_SIZE as int * (n / CHUNK_SIZE as int) + n % CHUNK_SIZE as int && n
                % CHUNK_SIZE as int >= 0,
    ;
    assert(0 <= c * CHUNK_SIZE as int) by (nonlinear_arith)
        requires
            0 <= c && CHUNK_SIZE as int > 0,
    ;
}

/// Copies a palette.
fn copy_colors(colors: &Vec<Color>) -> (r: Vec<Color>)
    ensures
        r@ == colors@,
{
    let mut r: Vec<Color> = Vec::new();
    let mut i: usize = 0;
    while i < colors.len()
        invariant
            i <= colors@.len(),
            r@ == colors@.take(i as int),
        decreases colors@.len() - i,
    {
        r.push(colors[i]);
        proof {
            assert(r@ =~= colors@.take(i as int + 1));
        }
        i = i + 1;
    }
    proof {
        assert(colors@.take(colors@.len() as int) =~= colors@);
    }
    r
}

/// The blocks of a model after applying one voxel: its slot becomes an
/// active block with the voxel's palette index.
pub open spec fn apply_voxel(blocks: Seq<Block>, size: Size, v: Voxel) -> Seq<Block> {
    blocks.update(
        model_index_spec(size, v.x as int, v.y as int, v.z as int),
        Block { active: true, color_id: v.color_id },
    )
}

/// The blocks of a model after applying a list of voxels in order; a
/// later voxel at the same coordinates wins.
pub open spec fn apply_voxels(blocks: Seq<Block>, size: Size, voxels: Seq<Voxel>) -> Seq<Block>
    decreases voxels.len(),
{
    if voxels.len() == 0 {
        blocks
    } else {
        apply_voxel(apply_voxels(blocks, size, voxels.drop_last()), size, voxels.last())
    }
}

/// The all-inactive block list of a model of the given size.
pub open spec fn blank_blocks(size: Size) -> Seq<Block> {
    Seq::new(
        (size.x * size.y * size.z) as nat,
        |i: int| Block { active: false, color_id: 0 },
    )
}

/// A dense voxel-coordinate → block mapping plus a palette.
#[derive(Clone, Debug)]
pub struct VoxelModel {
    /// The blocks, flattened in `model_index_spec` order.
    pub blocks: Vec<Block>,
    /// The color palette shared by every chunk of the model.
    pub palette: Vec<Color>,
    /// The bounding size.
    pub size: Size,
}

impl VoxelModel {
    /// The flat block list covers exactly the bounding volume, which fits
    /// the machine's address range.
    pub open spec fn wf(&self) -> bool {
        &&& self.blocks@.len() == self.size.x * self.size.y * self.size.z
        &&& self.size.x * self.size.y <= usize::MAX
        &&& self.size.x * self.size.y * self.size.z <= usize::MAX
    }

    /// The block at (x, y, z).
    pub open spec fn spec_block_at(&self, x: int, y: int, z: int) -> Block {
        self.blocks@[model_index_spec(self.size, x, y, z)]
    }

    /// An all-inactive model of the given size over the given palette.
    pub fn new(size: Size, palette: Vec<Color>) -> (m: VoxelModel)
        requires
            size.x * size.y <= usize::MAX,
            size.x * size.y * size.z <= usize::MAX,
        ensures
            m.wf(),
            m.size == size,
            m.palette@ == palette@,
            m.blocks@ == blank_blocks(size),
    {
        let total = size.x * size.y * size.z;
        proof {
            assert(size.x * size.y * size.z == (size.x * size.y) * size.z);
        }
        let mut blocks: Vec<Block> = Vec::new();
        let mut i: usize = 0;
        while i < total
            invariant
                i <= total,
                total == size.x * size.y * size.z,
                blocks@.len() == i,
                forall|j: int|
                    0 <= j < i ==> #[trigger] blocks@[j] == (Block { active: false, color_id: 0 }),
            decreases total - i,
        {
            blocks.push(Block::default());
            i = i + 1;
        }
        proof {
            assert(blocks@ =~= blank_blocks(size));
        }
        VoxelModel { blocks, palette, size }
    }

    /// The model built from a loader's plain data: every listed voxel
    /// becomes an active block with its palette index, later entries
    /// winning over earlier ones, and every unlisted coordinate stays
    /// inactive.
    pub fn from_voxels(size: Size, palette: Vec<Color>, voxels: &Vec<Voxel>) -> (m: VoxelModel)
        requires
            size.x * size.y <= usize::MAX,
            size.x * size.y * size.z <= usize::MAX,
            forall|k: int|
                0 <= k < voxels@.len() ==> in_model_bounds(
                    size,
                    #[trigger] voxels@[k].x as int,
                    voxels@[k].y as int,
                    voxels@[k].z as int,
                ),
        ensures
            m.wf(),
            m.size == size,
            m.palette@ == palette@,
            m.blocks@ == apply_voxels(blank_blocks(size), size, voxels@),
    {
        let mut m = VoxelModel::new(size, palette);
        let ghost palette_view = m.palette@;
        let mut k: usize = 0;
        while k < voxels.len()
            invariant
                k <= voxels@.len(),
                m.size == size,
                m.wf(),
                m.palette@ == palette_view,
                m.blocks@ == apply_voxels(blank_blocks(size), size, voxels@.take(k as int)),
                size.x * size.y <= usize::MAX,
                size.x * size.y * size.z <= usize::MAX,
                forall|j: int|
                    0 <= j < voxels@.len() ==> in_model_bounds(
                        size,
                        #[trigger] voxels@[j].x as int,
                        voxels@[j].y as int,
                        voxels@[j].z as int,
                    ),
            decreases voxels@.len() - k,
        {
            let v = voxels[k];
            proof {
                lemma_flat_index_bound(
                    size.x as int,
                    size.y as int,
                    size.z as int,
                    v.x as int,
                    v.y as int,
                    v.z as int,
                );
            }
            let idx = ((v.x as usize) * size.y + (v.y as usize)) * size.z + (v.z as usize);
            m.blocks.set(idx, Block::new(true, v.color_id));
            proof {
                assert(voxels@.take(k as int + 1).drop_last() =~= voxels@.take(k as int));
                assert(voxels@.take(k as int + 1).last() == voxels@[k as int]);
            }
            k = k + 1;
        }
        proof {
            assert(voxels@.take(voxels@.len() as int) =~= voxels@);
        }
        m
    }

    /// Partitions the model into a dense grid of chunks.  Voxel
    /// (x, y, z) lands in the chunk at grid cell
    /// (x / CHUNK_SIZE, y / CHUNK_SIZE, z / CHUNK_SIZE), at local offset
    /// (x % CHUNK_SIZE, y % CHUNK_SIZE, z % CHUNK_SIZE); every other slot
    /// of every chunk stays inactive, every chunk shares the model's
    /// palette, and each chunk carries the world offset of its grid cell.
    pub fn into_chunks(self) -> (r: Vec<ChunkBundle>)
        requires
            self.wf(),
        ensures
            partitioned(self, r@),
    {
        let nx = self.size.x / CHUNK_SIZE + 1;
        let ny = self.size.y / CHUNK_SIZE + 1;
        let nz = self.size.z / CHUNK_SIZE + 1;
        let mut r: Vec<ChunkBundle> = Vec::new();
        let mut cx: usize = 0;
        while cx < nx
            invariant
                self.wf(),
                nx == chunks_per_axis(self.size.x as int),
                ny == chunks_per_axis(self.size.y as int),
                nz == chunks_per_axis(self.size.z as int),
                cx <= nx,
                r@.len() == flat3(cx as int, 0, 0, ny as int, nz as int),
                forall|ax: int, ay: int, az: int|
                    0 <= ax < nx && 0 <= ay < ny && 0 <= az < nz && lex_lt(
                        ax,
                        ay,
                        az,
                        cx as int,
                        0,
                        0,
                    ) ==> {
                        &&& 0 <= #[trigger] chunk_grid_index(self.size, ax, ay, az) < r@.len()
                        &&& bundle_ok(self, r@[chunk_grid_index(self.size, ax, ay, az)], ax, ay, az)
                    },
            decreases nx - cx,
        {
            let mut cy: usize = 0;
            while cy < ny
                invariant
                    self.wf(),
                    nx == chunks_per_axis(self.size.x as int),
                    ny == chunks_per_axis(self.size.y as int),
                    nz == chunks_per_axis(self.size.z as int),
                    cx < nx,
                    cy <= ny,
                    r@.len() == flat3(cx as int, cy as int, 0, ny as int, nz as int),
                    forall|ax: int, ay: int, az: int|
                        0 <= ax < nx && 0 <= ay < ny && 0 <= az < nz && lex_lt(
                            ax,
                            ay,
                            az,
                            cx as int,
                            cy as int,
                            0,
                        ) ==> {
                            &&& 0 <= #[trigger] chunk_grid_index(self.size, ax, ay, az) < r@.len()
                            &&& bundle_ok(
                                self,
                                r@[chunk_grid_index(self.size, ax, ay, az)],
                                ax,
                                ay,
                                az,
                            )
                        },
                decreases ny - cy,
            {
                let mut cz: usize = 0;
                while cz < nz
                    invariant
                        self.wf(),
                        nx == chunks_per_axis(self.size.x as int),
                        ny == chunks_per_axis(self.size.y as int),
                        nz == chunks_per_axis(self.size.z as int),
                        cx < nx,
                        cy < ny,
                        cz <= nz,
                        r@.len() == flat3(cx as int, cy as int, cz as int, ny as int, nz as int),
                        forall|ax: int, ay: int, az: int|
                            0 <= ax < nx && 0 <= ay < ny && 0 <= az < nz && lex_lt(
                                ax,
                                ay,
                                az,
                                cx as int,
                                cy as int,
                                cz as int,
                            ) ==> {
                                &&& 0 <= #[trigger] chunk_grid_index(self.size, ax, ay, az)
                                    < r@.len()
                                &&& bundle_ok(
                                    self,
                                    r@[chunk_grid_index(self.size, ax, ay, az)],
                                    ax,
                                    ay,
                                    az,
                                )
                            },
                    decreases nz - cz,
                {
                    let bundle = self.build_chunk(cx, cy, cz, nx, ny, nz);
                    proof {
                        assert(flat3(cx as int, cy as int, cz as int, ny as int, nz as int)
                            == chunk_grid_index(self.size, cx as int, cy as int, cz as int))
                            by (nonlinear_arith)
                            requires
                                ny == chunks_per_axis(self.size.y as int) && nz == chunks_per_axis(
                                    self.size.z as int,
                                ) && flat3(
                                    cx as int,
                                    cy as int,
                                    cz as int,
                                    ny as int,
                                    nz as int,
                                ) == cx as int * (ny as int * nz as int) + cy as int * nz as int
                                    + cz as int && chunk_grid_index(
                                    self.size,
                                    cx as int,
                                    cy as int,
                                    cz as int,
                                ) == (cx as int * ny as int + cy as int) * nz as int + cz as int,
                        ;
                    }
                    r.push(bundle);
                    cz = cz + 1;
                }
                proof {
                    assert(flat3(cx as int, cy as int, nz as int, ny as int, nz as int) == flat3(
                        cx as int,
                        cy as int + 1,
                        0,
                        ny as int,
                        nz as int,
                    )) by (nonlinear_arith);
                }
                cy = cy + 1;
            }
            proof {
                assert(flat3(cx as int, ny as int, 0, ny as int, nz as int) == flat3(
                    cx as int + 1,
                    0,
                    0,
                    ny as int,
                    nz as int,
                )) by (nonlinear_arith);
            }
            cx = cx + 1;
        }
        proof {
            assert(flat3(nx as int, 0, 0, ny as int, nz as int) == nx as int * ny as int
                * nz as int) by (nonlinear_arith);
        }
        r
    }

    /// Builds the chunk of grid cell (cx, cy, cz): each local slot takes
    /// the model's block at the corresponding global coordinates, or an
    /// inactive block outside the model bounds.
    fn build_chunk(&self, cx: usize, cy: usize, cz: usize, nx: usize, ny: usize, nz: usize) -> (b:
        ChunkBundle)
        requires
            self.wf(),
            nx == chunks_per_axis(self.size.x as int),
            ny == chunks_per_axis(self.size.y as int),
            nz == chunks_per_axis(self.size.z as int),
            cx < nx,
            cy < ny,
            cz < nz,
        ensures
            bundle_ok(*self, b, cx as int, cy as int, cz as int),
    {
        proof {
            lemma_chunk_base_in_range(self.size.x as int, cx as int);
            lemma_chunk_base_in_range(self.size.y as int, cy as int);
            lemma_chunk_base_in_range(self.size.z as int, cz as int);
        }
        let base_x = cx * CHUNK_SIZE;
        let base_y = cy * CHUNK_SIZE;
        let base_z = cz * CHUNK_SIZE;
        let mut blocks: Vec<Block> = Vec::new();
        let mut i: usize = 0;
        while i < CHUNK_VOLUME
            invariant
                self.wf(),
                i <= CHUNK_VOLUME,
                base_x == cx * CHUNK_SIZE && base_x <= self.size.x,
                base_y == cy * CHUNK_SIZE && base_y <= self.size.y,
                base_z == cz * CHUNK_SIZE && base_z <= self.size.z,
                blocks@.len() == i,
                forall|j: int|
                    0 <= j < i ==> #[trigger] blocks@[j] == local_block_expected(
                        *self,
                        cx as int,
                        cy as int,
                        cz as int,
                        cell_x(j),
                        cell_y(j),
                        cell_z(j),
                    ),
            decreases CHUNK_VOLUME - i,
        {
            let lx = i / (CHUNK_SIZE * CHUNK_SIZE);
            let ly = (i / CHUNK_SIZE) % CHUNK_SIZE;
            let lz = i % CHUNK_SIZE;
            proof {
                lemma_cell_decomposition(i as int);
            }
            let block = if lx < self.size.x - base_x && ly < self.size.y - base_y && lz
                < self.size.z - base_z {
                let gx = base_x + lx;
                let gy = base_y + ly;
                let gz = base_z + lz;
                proof {
                    lemma_flat_index_bound(
                        self.size.x as int,
                        self.size.y as int,
                        self.size.z as int,
                        gx as int,
                        gy as int,
                        gz as int,
                    );
                }
                self.blocks[(gx * self.size.y + gy) * self.size.z + gz]
            } else {
                Block::default()
            };
            blocks.push(block);
            i = i + 1;
        }
        let chunk = Chunk { blocks, palette: copy_colors(&self.palette), vertex_buffer: None };
        let bundle = ChunkBundle {
            chunk,
            transform: ChunkTranslation { x: base_x, y: base_y, z: base_z },
        };
        proof {
            assert forall|lx: int, ly: int, lz: int| in_chunk_bounds(lx, ly, lz) implies
                #[trigger] bundle.chunk.spec_block_at(lx, ly, lz) == local_block_expected(
                *self,
                cx as int,
                cy as int,
                cz as int,
                lx,
                ly,
                lz,
            ) by {
                lemma_block_index_inverse(lx, ly, lz);
            }
        }
        bundle
    }

    /// The block at (x, y, z), or `None` when the coordinates fall
    /// outside the model bounds.
    pub fn get_block(&self, x: usize, y: usize, z: usize) -> (r: Option<Block>)
        requires
            self.wf(),
        ensures
            r == if in_model_bounds(self.size, x as int, y as int, z as int) {
                Some(self.spec_block_at(x as int, y as int, z as int))
            } else {
                None::<Block>
            },
    {
        if x < self.size.x && y < self.size.y && z < self.size.z {
            proof {
                lemma_flat_index_bound(
                    self.size.x as int,
                    self.size.y as int,
                    self.size.z as int,
                    x as int,
                    y as int,
                    z as int,
                );
            }
            Some(self.blocks[(x * self.size.y + y) * self.size.z + z])
        } else {
            None
        }
    }
}

} // verus!
