use tracengine::pipeline::BoundResource;
use tracengine::taa::{Taa, TaaConfig};
use tracengine::types::SurfaceSize;

#[test]
fn taa_config_carries_canvas_and_jitter() {
    let c = TaaConfig::new(SurfaceSize::new(320, 200), 0x3f00_0000);
    assert_eq!(c.canvas_width, 320);
    assert_eq!(c.canvas_height, 200);
    assert_eq!(c.jitter_bits, 0x3f00_0000);
}

#[test]
fn new_taa_matches_the_viewport() {
    let taa = Taa::new(SurfaceSize::new(8, 4));
    assert_eq!(taa.render_texture.description.width, 8);
    assert_eq!(taa.render_texture.description.height, 4);
    assert_eq!(taa.history_texture.description.width, 8);
    assert_eq!(taa.history_texture.description.height, 4);
    assert_eq!(taa.velocity_buffer.capacity(), 32);
    assert_eq!(taa.config_buffer.capacity(), 1);
    assert_eq!(taa.shader_resource.bind_entries.len(), 4);
}

#[test]
fn update_without_drift_keeps_resources_and_writes_config() {
    let mut taa = Taa::new(SurfaceSize::new(8, 4));
    taa.update(SurfaceSize::new(8, 4), 77);
    assert_eq!(taa.current_jitter_bits, 77);
    assert_eq!(taa.render_texture.generation, 0);
    assert_eq!(taa.history_texture.generation, 0);
    assert_eq!(taa.velocity_buffer.generation(), 0);
    assert_eq!(
        taa.config_buffer.get(0),
        Some(TaaConfig { canvas_width: 8, canvas_height: 4, jitter_bits: 77 })
    );
}

#[test]
fn viewport_drift_resizes_everything_and_rebinds() {
    let mut taa = Taa::new(SurfaceSize::new(8, 4));
    taa.update(SurfaceSize::new(16, 2), 5);

    // Every viewport-sized resource reports the new pixel count.
    assert_eq!(taa.render_texture.description.width, 16);
    assert_eq!(taa.render_texture.description.height, 2);
    assert_eq!(taa.history_texture.description.width, 16);
    assert_eq!(taa.history_texture.description.height, 2);
    assert_eq!(taa.velocity_buffer.capacity(), 32);
    assert_eq!(taa.render_texture.generation, 1);
    assert_eq!(taa.history_texture.generation, 1);

    // The rebuilt binding names the post-resize allocations, not the old
    // ones: history view and sampler at slots 0 and 1, the velocity
    // buffer at 2, the configuration buffer at 3.
    assert_eq!(
        taa.shader_resource.bind_entries[0].resource,
        BoundResource::TextureView { generation: taa.history_texture.generation }
    );
    assert_eq!(
        taa.shader_resource.bind_entries[1].resource,
        BoundResource::Sampler { generation: taa.history_texture.generation }
    );
    assert_eq!(
        taa.shader_resource.bind_entries[2].resource,
        BoundResource::Buffer { generation: taa.velocity_buffer.generation() }
    );
    assert_eq!(
        taa.shader_resource.bind_entries[3].resource,
        BoundResource::Buffer { generation: taa.config_buffer.generation() }
    );

    // The frame's configuration reflects the new canvas.
    assert_eq!(
        taa.config_buffer.get(0),
        Some(TaaConfig { canvas_width: 16, canvas_height: 2, jitter_bits: 5 })
    );
}

#[test]
fn velocity_buffer_growth_alone_still_rebinds() {
    let mut taa = Taa::new(SurfaceSize::new(4, 4));
    let velocity_before = taa.velocity_buffer.generation();
    taa.update(SurfaceSize::new(2, 2), 0);
    assert_eq!(taa.velocity_buffer.capacity(), 4);
    assert_eq!(taa.velocity_buffer.generation(), velocity_before + 1);
    assert_eq!(
        taa.shader_resource.bind_entries[2].resource,
        BoundResource::Buffer { generation: taa.velocity_buffer.generation() }
    );
}
