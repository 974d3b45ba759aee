use tracengine::block::Block;
use tracengine::buffer::{BufferId, InvalidBufferId};
use tracengine::chunk::Chunk;
use tracengine::mesh::{FaceDirection, Position, Vertex};
use tracengine::renderer::Renderer;
use tracengine::types::{Color, SurfaceSize, TextureFormat};

fn vertex(x: usize) -> Vertex {
    Vertex {
        position: Position { x, y: 0, z: 0 },
        normal: FaceDirection::Top,
        color: Color::new(1, 2, 3),
    }
}

#[test]
fn new_renderer_sets_up_a_depth_texture() {
    let r = Renderer::new(SurfaceSize::new(640, 480));
    assert_eq!(r.size(), SurfaceSize::new(640, 480));
    let depth = r.depth_texture().as_ref().unwrap();
    assert_eq!(depth.description.width, 640);
    assert_eq!(depth.description.height, 480);
    assert_eq!(depth.description.format, TextureFormat::Depth32Float);
}

#[test]
fn resize_with_regenerates_the_depth_texture() {
    let mut r = Renderer::new(SurfaceSize::new(640, 480));
    r.resize_with(SurfaceSize::new(800, 600));
    assert_eq!(r.size(), SurfaceSize::new(800, 600));
    let depth = r.depth_texture().as_ref().unwrap();
    assert_eq!(depth.description.width, 800);
    assert_eq!(depth.description.height, 600);
    assert_eq!(depth.description.format, TextureFormat::Depth32Float);
}

#[test]
fn zero_sized_viewports_are_ignored() {
    let mut r = Renderer::new(SurfaceSize::new(640, 480));
    r.resize_with(SurfaceSize::new(0, 600));
    assert_eq!(r.size(), SurfaceSize::new(640, 480));
    r.resize_with(SurfaceSize::new(800, 0));
    assert_eq!(r.size(), SurfaceSize::new(640, 480));
}

#[test]
fn vertex_buffer_ids_count_up_from_zero() {
    let mut r = Renderer::new(SurfaceSize::new(64, 64));
    assert_eq!(r.create_vertex_buffer(6), BufferId(0));
    assert_eq!(r.create_vertex_buffer(12), BufferId(1));
    assert_eq!(r.vertex_buffers.len(), 2);
    assert_eq!(r.vertex_buffers[0].capacity(), 6);
    assert_eq!(r.vertex_buffers[1].capacity(), 12);
}

#[test]
fn update_vertex_buffer_rejects_unknown_ids() {
    let mut r = Renderer::new(SurfaceSize::new(64, 64));
    let result = r.update_vertex_buffer(BufferId(0), &[vertex(0)]);
    assert_eq!(result, Err(InvalidBufferId(BufferId(0))));
}

#[test]
fn update_vertex_buffer_writes_in_place_when_it_fits() {
    let mut r = Renderer::new(SurfaceSize::new(64, 64));
    let id = r.create_vertex_buffer(4);
    assert!(r.update_vertex_buffer(id, &[vertex(5), vertex(6)]).is_ok());
    let b = &r.vertex_buffers[0];
    assert_eq!(b.capacity(), 4);
    assert_eq!(b.generation(), 0);
    assert_eq!(b.get(0), Some(vertex(5)));
    assert_eq!(b.get(1), Some(vertex(6)));
    assert_eq!(b.get(2), None);
}

#[test]
fn update_vertex_buffer_grows_when_the_data_does_not_fit() {
    let mut r = Renderer::new(SurfaceSize::new(64, 64));
    let id = r.create_vertex_buffer(1);
    assert!(r.update_vertex_buffer(id, &[vertex(1), vertex(2), vertex(3)]).is_ok());
    let b = &r.vertex_buffers[0];
    assert_eq!(b.capacity(), 3);
    assert_eq!(b.generation(), 1);
    assert_eq!(b.get(2), Some(vertex(3)));
}

#[test]
fn chunk_update_registers_and_fills_a_vertex_buffer() {
    let mut renderer = Renderer::new(SurfaceSize::new(64, 64));
    let mut chunk = Chunk::new(vec![Color::new(7, 7, 7)]);
    chunk.set_block(Block::new(true, 0), 2, 2, 2).unwrap();

    chunk.update(&mut renderer);
    let id = chunk.vertex_buffer();
    assert_eq!(id, BufferId(0));
    assert_eq!(renderer.vertex_buffers.len(), 1);
    // One isolated block: 36 mesh vertices stored from element 0.
    assert_eq!(renderer.vertex_buffers[0].capacity(), 36);
    assert!(renderer.vertex_buffers[0].get(35).is_some());

    // A second update reuses the same buffer.
    chunk.update(&mut renderer);
    assert_eq!(chunk.vertex_buffer(), BufferId(0));
    assert_eq!(renderer.vertex_buffers.len(), 1);
}
