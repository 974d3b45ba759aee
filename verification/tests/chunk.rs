use tracengine::block::Block;
use tracengine::buffer::Buffer;
use tracengine::chunk::{
    chunks_count, Chunk, InvalidBlockCoords, LoadChunkError, CHUNK_BYTES, CHUNK_SIZE,
};
use tracengine::mesh::{FaceDirection, Position};
use tracengine::texture::{Texture, TextureDescriptor};
use tracengine::types::{
    BufferUsages, Color, Extent3d, FilterMode, TextureDimension, TextureFormat, TextureUsages,
    BUFFER_USAGE_STORAGE, TEXTURE_USAGE_COPY_DST, TEXTURE_USAGE_TEXTURE_BINDING,
};

fn atlas_descriptor() -> TextureDescriptor {
    TextureDescriptor {
        width: CHUNK_SIZE as u32,
        height: CHUNK_SIZE as u32,
        depth: Some(CHUNK_SIZE as u32 * 2),
        filter: FilterMode::Nearest,
        dimension: TextureDimension::D3,
        usage: TextureUsages { bits: TEXTURE_USAGE_TEXTURE_BINDING | TEXTURE_USAGE_COPY_DST },
        format: TextureFormat::Rgba8Uint,
        label: "Chunks",
    }
}

fn palettes() -> Buffer<Color> {
    Buffer::new(256 * chunks_count() as usize, BufferUsages { bits: BUFFER_USAGE_STORAGE })
}

#[test]
fn block_accessors_round_trip() {
    let mut b = Block::new(true, 9);
    assert!(b.is_active());
    assert_eq!(b.color(), 9);
    b.set_color(3);
    b.set_active(false);
    assert_eq!(b.color(), 3);
    assert!(!b.is_active());
    assert_eq!(Block::default(), Block::new(false, 0));
}

#[test]
fn atlas_chunk_capacity_follows_the_render_distance() {
    assert_eq!(chunks_count(), 49);
}

#[test]
fn set_and_get_blocks_inside_the_grid() {
    let mut c = Chunk::new(vec![Color::new(255, 0, 0)]);
    assert!(c.set_block(Block::new(true, 0), 31, 0, 31).is_ok());
    assert_eq!(c.get_block(31, 0, 31), Some(Block::new(true, 0)));
    assert_eq!(c.get_block(0, 0, 0), Some(Block::default()));
    assert_eq!(c.get_block(32, 0, 0), None);
    assert!(c.check_block(31, 0, 31));
    assert!(!c.check_block(0, 0, 0));
    assert!(!c.check_block(32, 0, 0));
}

#[test]
fn set_block_rejects_out_of_bounds_coordinates() {
    let mut c = Chunk::new(vec![]);
    let r = c.set_block(Block::new(true, 0), 1, 32, 2);
    assert_eq!(r, Err(InvalidBlockCoords(1, 32, 2)));
}

#[test]
fn isolated_block_meshes_to_six_faces() {
    let mut c = Chunk::new(vec![Color::new(10, 20, 30)]);
    c.set_block(Block::new(true, 0), 5, 6, 7).unwrap();
    let mesh = c.generate_mesh();
    assert_eq!(mesh.vertex_data.len(), 36);
    // The first face emitted is the front face of the block, carrying
    // the palette-resolved color.
    let v = mesh.vertex_data[0];
    assert_eq!(v.position, Position { x: 5, y: 6, z: 7 });
    assert_eq!(v.normal, FaceDirection::Front);
    assert_eq!(v.color, Color::new(10, 20, 30));
}

#[test]
fn corner_block_still_shows_all_six_faces() {
    // Grid-boundary faces are always treated as exposed.
    let mut c = Chunk::new(vec![Color::new(1, 1, 1)]);
    c.set_block(Block::new(true, 0), 0, 0, 0).unwrap();
    assert_eq!(c.generate_mesh().vertex_data.len(), 36);
}

#[test]
fn adjacent_blocks_suppress_their_shared_faces() {
    for (a, b) in [
        ((4, 4, 4), (4, 4, 5)),
        ((4, 4, 4), (5, 4, 4)),
        ((4, 4, 4), (4, 5, 4)),
    ] {
        let mut c = Chunk::new(vec![Color::new(0, 0, 0)]);
        c.set_block(Block::new(true, 0), a.0, a.1, a.2).unwrap();
        c.set_block(Block::new(true, 0), b.0, b.1, b.2).unwrap();
        assert_eq!(c.generate_mesh().vertex_data.len(), 60);
    }
}

#[test]
fn empty_chunk_meshes_to_nothing() {
    let c = Chunk::new(vec![]);
    assert!(c.generate_mesh().vertex_data.is_empty());
}

#[test]
fn write_to_texture_rejects_non_3d_textures() {
    let mut descr = atlas_descriptor();
    descr.dimension = TextureDimension::D2;
    let texture = Texture::new(descr);
    let mut buffer = palettes();
    let r = Chunk::new(vec![]).write_to_texture(&texture, &mut buffer, 0);
    assert_eq!(
        r.err(),
        Some(LoadChunkError::InvalidTextureDimension {
            expected: TextureDimension::D3,
            found: TextureDimension::D2,
        })
    );
}

#[test]
fn write_to_texture_rejects_unaligned_depth() {
    let mut descr = atlas_descriptor();
    descr.depth = Some(33);
    let texture = Texture::new(descr);
    let mut buffer = palettes();
    let r = Chunk::new(vec![]).write_to_texture(&texture, &mut buffer, 0);
    assert_eq!(r.err(), Some(LoadChunkError::InvalidTextureDepth(33)));
}

#[test]
fn write_to_texture_rejects_wrong_width_or_height() {
    let mut descr = atlas_descriptor();
    descr.width = 16;
    let texture = Texture::new(descr);
    let mut buffer = palettes();
    let r = Chunk::new(vec![]).write_to_texture(&texture, &mut buffer, 0);
    assert_eq!(
        r.err(),
        Some(LoadChunkError::InvalidTextureSize {
            expected: Extent3d { width: 32, height: 32, depth_or_array_layers: 1 },
            found: Extent3d { width: 16, height: 32, depth_or_array_layers: 64 },
        })
    );
}

#[test]
fn write_to_texture_rejects_out_of_range_chunk_index() {
    let texture = Texture::new(atlas_descriptor());
    let mut buffer = palettes();
    let r = Chunk::new(vec![]).write_to_texture(&texture, &mut buffer, 2);
    assert_eq!(r.err(), Some(LoadChunkError::InvalidChunksIndex { max: 2, found: 2 }));
}

#[test]
fn write_to_texture_rejects_slots_the_source_cannot_cover() {
    // The packed source spans exactly one chunk, so a copy region that
    // starts at a later slot's byte offset would overrun it.
    let texture = Texture::new(atlas_descriptor());
    let mut buffer = palettes();
    let r = Chunk::new(vec![]).write_to_texture(&texture, &mut buffer, 1);
    assert_eq!(
        r.err(),
        Some(LoadChunkError::SourceBufferOverrun {
            required: 2 * CHUNK_BYTES as u64,
            available: CHUNK_BYTES as u64,
        })
    );
}

#[test]
fn write_to_texture_packs_four_bytes_per_voxel() {
    let mut c = Chunk::new(vec![Color::new(200, 100, 50), Color::new(1, 2, 3)]);
    c.set_block(Block::new(true, 1), 1, 2, 3).unwrap();
    let texture = Texture::new(atlas_descriptor());
    let mut buffer = palettes();

    let upload = c.write_to_texture(&texture, &mut buffer, 0).unwrap();

    assert_eq!(upload.bytes.len(), CHUNK_BYTES);
    assert_eq!(upload.source_offset, 0);
    assert_eq!(upload.bytes_per_row, 4 * 32);
    assert_eq!(upload.rows_per_image, 32);
    assert_eq!(
        upload.extent,
        Extent3d { width: 32, height: 32, depth_or_array_layers: 32 }
    );

    // Row-major with x fastest: voxel (1, 2, 3) sits at 4·(3·1024 + 2·32 + 1).
    let base = 4 * (3 * 1024 + 2 * 32 + 1);
    assert_eq!(upload.bytes[base], 1);
    assert_eq!(upload.bytes[base + 1], 1);
    assert_eq!(upload.bytes[base + 2], 0);
    assert_eq!(upload.bytes[base + 3], 0);
    // An untouched voxel packs to four zeroes.
    assert_eq!(&upload.bytes[0..4], &[0, 0, 0, 0]);

    // The palette lands in the chunk's slot of the shared buffer.
    assert_eq!(buffer.get(0), Some(Color::new(200, 100, 50)));
    assert_eq!(buffer.get(1), Some(Color::new(1, 2, 3)));
    assert_eq!(buffer.get(2), None);
}
