use tracengine::block::Block;
use tracengine::model::{ChunkTranslation, Size, Voxel, VoxelModel};
use tracengine::types::Color;

fn voxel(x: u8, y: u8, z: u8, color_id: u8) -> Voxel {
    Voxel { x, y, z, color_id }
}

#[test]
fn from_voxels_activates_exactly_the_listed_coordinates() {
    let size = Size { x: 3, y: 2, z: 2 };
    let m = VoxelModel::from_voxels(
        size,
        vec![Color::new(9, 9, 9)],
        &vec![voxel(0, 0, 0, 0), voxel(2, 1, 1, 0)],
    );
    assert_eq!(m.get_block(0, 0, 0), Some(Block::new(true, 0)));
    assert_eq!(m.get_block(2, 1, 1), Some(Block::new(true, 0)));
    assert_eq!(m.get_block(1, 0, 0), Some(Block::default()));
    assert_eq!(m.get_block(3, 0, 0), None);
}

#[test]
fn later_voxels_win_over_earlier_ones() {
    let size = Size { x: 1, y: 1, z: 1 };
    let m = VoxelModel::from_voxels(
        size,
        vec![],
        &vec![voxel(0, 0, 0, 3), voxel(0, 0, 0, 7)],
    );
    assert_eq!(m.get_block(0, 0, 0), Some(Block::new(true, 7)));
}

#[test]
fn partition_covers_the_model_densely() {
    // A model spanning two chunks along x: the grid is 2×1×1, and even
    // the chunk with no voxels is produced.
    let size = Size { x: 40, y: 10, z: 5 };
    let m = VoxelModel::from_voxels(
        size,
        vec![Color::new(5, 5, 5)],
        &vec![voxel(35, 2, 3, 0), voxel(1, 0, 0, 0)],
    );
    let chunks = m.into_chunks();
    assert_eq!(chunks.len(), 2);

    assert_eq!(chunks[0].transform, ChunkTranslation { x: 0, y: 0, z: 0 });
    assert_eq!(chunks[1].transform, ChunkTranslation { x: 32, y: 0, z: 0 });

    // Voxel (35, 2, 3) lands in the second chunk at local (3, 2, 3) and
    // nowhere else; voxel (1, 0, 0) in the first at (1, 0, 0).
    assert_eq!(chunks[1].chunk.get_block(3, 2, 3), Some(Block::new(true, 0)));
    assert_eq!(chunks[0].chunk.get_block(1, 0, 0), Some(Block::new(true, 0)));
    assert_eq!(chunks[0].chunk.get_block(3, 2, 3), Some(Block::default()));
    assert_eq!(chunks[1].chunk.get_block(1, 0, 0), Some(Block::default()));

    // Both chunks carry the model's palette.
    assert_eq!(chunks[0].chunk.palette, vec![Color::new(5, 5, 5)]);
    assert_eq!(chunks[1].chunk.palette, vec![Color::new(5, 5, 5)]);
}

#[test]
fn partition_loses_and_duplicates_nothing() {
    let size = Size { x: 40, y: 10, z: 5 };
    let m = VoxelModel::from_voxels(size, vec![], &vec![voxel(33, 1, 2, 0)]);
    let m2 = m.clone();
    let chunks = m2.into_chunks();
    let mut active: usize = 0;
    for bundle in &chunks {
        for x in 0..32 {
            for y in 0..32 {
                for z in 0..32 {
                    if bundle.chunk.check_block(x, y, z) {
                        active += 1;
                        assert_eq!(bundle.transform, ChunkTranslation { x: 32, y: 0, z: 0 });
                        assert_eq!((x, y, z), (1, 1, 2));
                    }
                }
            }
        }
    }
    assert_eq!(active, 1);
}

#[test]
fn solid_two_cube_model_partitions_to_one_chunk_and_meshes_its_hull() {
    // A 2×2×2 all-active model with a one-entry palette: exactly one
    // chunk, at a zero offset, whose mesh shows only the 24 outer faces
    // of the solid cube — 144 vertices.
    let size = Size { x: 2, y: 2, z: 2 };
    let mut voxels = Vec::new();
    for x in 0..2 {
        for y in 0..2 {
            for z in 0..2 {
                voxels.push(voxel(x, y, z, 0));
            }
        }
    }
    let m = VoxelModel::from_voxels(size, vec![Color::new(128, 128, 128)], &voxels);
    let chunks = m.into_chunks();
    assert_eq!(chunks.len(), 1);
    assert_eq!(chunks[0].transform, ChunkTranslation { x: 0, y: 0, z: 0 });

    let mesh = chunks[0].chunk.generate_mesh();
    assert_eq!(mesh.vertex_data.len(), 144);
}

#[test]
fn default_size_is_empty() {
    assert_eq!(Size::default(), Size { x: 0, y: 0, z: 0 });
}
