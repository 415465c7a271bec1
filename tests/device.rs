use gfx_core::device::{BuiltinShape, BuiltinShapes, RenderDevice};
use gfx_core::error::LifecycleError;
use gfx_core::frame_stats::FrameStatsRecorder;
use gfx_core::geometry::{UVec2, Viewport};
use gfx_core::image_texture::ImageTexture;
use gfx_core::render_data::RenderData;
use gfx_core::render_target::RenderTarget;
use gfx_core::batch::Texture2DBatch;
use gfx_core::shapes::{FramebufferShape, RectShape, Shape, TextureShape};

fn rd(base: u32) -> RenderData {
    RenderData { vao: base, vbo: base + 1, ibo: base + 2, tbo: base + 3, nbo: 0, tabo: 0, index_count: 6 }
}

fn shapes() -> BuiltinShapes {
    BuiltinShapes { framebuffer_shape: rd(10), texture_shape: rd(20), texture_batch_shape: rd(30), rect_shape: rd(40) }
}

#[test]
fn init_once_then_shapes_resolve() {
    let mut d = RenderDevice::new();
    assert_eq!(d.shape(BuiltinShape::Rect), Err(LifecycleError::NotInitialized));
    assert_eq!(d.init(shapes()), Ok(()));
    assert_eq!(d.shape(BuiltinShape::Texture), Ok(rd(20)));
    assert_eq!(d.shape(BuiltinShape::Rect), Ok(rd(40)));
    let mut other = shapes();
    other.rect_shape = rd(90);
    assert_eq!(d.init(other), Err(LifecycleError::AlreadyInitialized));
    assert_eq!(d.shape(BuiltinShape::Rect), Ok(rd(40)));
    assert_eq!(d.dispose(), Some(shapes()));
    assert_eq!(d.shape(BuiltinShape::Framebuffer), Err(LifecycleError::NotInitialized));
}

#[test]
fn shape_geometry() {
    let half = 0.5f32.to_bits();
    let v = TextureShape.get_vertex_buffer().unwrap();
    assert_eq!(v.len(), 12);
    assert_eq!(v[6], half);
    assert_eq!(v[0], (-0.5f32).to_bits());
    assert_eq!(FramebufferShape.get_vertex_buffer().unwrap()[0], (-1.0f32).to_bits());
    assert_eq!(RectShape.get_index_buffer(), Some(vec![0, 1, 3, 3, 1, 2]));
    assert_eq!(RectShape.get_uv_buffer(), None);
    assert_eq!(
        TextureShape.get_uv_buffer(),
        Some([0.0f32, 0.0, 0.0, 1.0, 1.0, 1.0, 1.0, 0.0].iter().map(|f| f.to_bits()).collect())
    );
    assert_eq!(FramebufferShape.get_normal_buffer(), None);
}

#[test]
fn init_shape_records_handles() {
    let mut d = RenderDevice::new();
    let r = d.init_shape(&TextureShape, 1, 2, 3, 4).unwrap();
    assert_eq!(r, RenderData { vao: 1, vbo: 2, ibo: 4, tbo: 3, nbo: 0, tabo: 0, index_count: 6 });
    let rect = d.init_shape(&RectShape, 1, 2, 0, 4).unwrap();
    assert_eq!(rect.tbo, 0);
    assert_eq!(d.init_shape(&TextureShape, 1, 2, 0, 4), Err(LifecycleError::NullHandle));
}

#[test]
fn dispose_render_data_zeroes_handles() {
    let mut d = RenderDevice::new();
    let mut r = rd(1);
    assert_eq!(d.dispose_render_data(&mut r), rd(1));
    assert_eq!(r, RenderData { vao: 0, vbo: 0, ibo: 0, tbo: 0, nbo: 0, tabo: 0, index_count: 6 });
    assert_eq!(RenderData::default(), RenderData::new());
}

#[test]
fn init_mesh_records_index_count() {
    let mut d = RenderDevice::new();
    let mut r = RenderData::new();
    assert_eq!(d.init_mesh(&mut r, 1, 2, 3, 4, 36), Ok(()));
    assert_eq!(r, RenderData { vao: 1, vbo: 2, ibo: 3, tbo: 4, nbo: 0, tabo: 0, index_count: 36 });
    let mut z = RenderData::new();
    assert_eq!(d.init_mesh(&mut z, 0, 2, 3, 4, 36), Err(LifecycleError::NullHandle));
    assert_eq!(z, RenderData::new());
}

#[test]
fn render_target_lifecycle() {
    let mut d = RenderDevice::new();
    assert_eq!(d.create_render_target(8, 4, 1, 0, 3, true), Err(LifecycleError::NullHandle));
    assert_eq!(d.create_render_target(8, 4, 1, 2, 3, false), Err(LifecycleError::IncompleteTarget));
    let mut t = d.create_render_target(8, 4, 1, 2, 3, true).unwrap();
    assert_eq!(t, RenderTarget { size: UVec2::new(8, 4), framebuffer_id: 1, texture_id: 2, renderbuffer_id: 3 });
    d.resize_render_target(&mut t, 16, 9);
    assert_eq!(t, RenderTarget { size: UVec2::new(16, 9), framebuffer_id: 1, texture_id: 2, renderbuffer_id: 3 });
    assert_eq!(d.draw_render_target(&t), Err(LifecycleError::NotInitialized));
    d.init(shapes()).unwrap();
    assert_eq!(d.draw_render_target(&t), Ok((2, rd(10))));
    let draw = d.draw_texture2drt(&t).unwrap();
    assert_eq!(draw.texture_id, 2);
    assert_eq!(draw.uv.coords, [0, 0, 0, 9, 16, 9, 16, 0]);
    let released = d.dispose_render_target(&mut t);
    assert_eq!(released.texture_id, 2);
    assert_eq!((t.framebuffer_id, t.texture_id, t.renderbuffer_id), (0, 0, 0));
    assert_eq!(t.size, UVec2::new(16, 9));
    assert_eq!(d.draw_render_target(&t), Err(LifecycleError::NotLoaded));
}

#[test]
fn texture_draws_need_resident_texture_and_init() {
    let mut d = RenderDevice::new();
    let loaded = ImageTexture::Loaded { id: 5, dimensions: UVec2::new(32, 16) };
    assert_eq!(d.draw_texture2d(&loaded), Err(LifecycleError::NotInitialized));
    d.init(shapes()).unwrap();
    let draw = d.draw_texture2d(&loaded).unwrap();
    assert_eq!((draw.texture_id, draw.shape), (5, rd(20)));
    assert_eq!(draw.uv.coords, [0, 0, 0, 16, 32, 16, 32, 0]);
    let sub = d.draw_sub_texture2d(UVec2::new(8, 4), UVec2::new(8, 8), &loaded).unwrap();
    assert_eq!(sub.uv.coords, [8, 4, 8, 12, 16, 12, 16, 4]);
    assert_eq!(d.draw_texture2d(&ImageTexture::Corrupted), Err(LifecycleError::NotLoaded));
    assert_eq!(d.draw_texture2d(&ImageTexture::Disposed), Err(LifecycleError::AlreadyDisposed));
}

#[test]
fn batch_draw_binds_streams() {
    let mut d = RenderDevice::new();
    d.init(shapes()).unwrap();
    let loaded = ImageTexture::Loaded { id: 5, dimensions: UVec2::new(32, 16) };
    let mut b = Texture2DBatch::new();
    b.add_instance([0; 16], [0; 4], [0; 4], true);
    b.add_instance([0; 16], [0; 4], [0; 4], false);
    assert_eq!(d.draw_texture2d_batch(&loaded, &b).err(), Some(LifecycleError::NotLoaded));
    d.load_texture2d_batch(&mut b, 7, 8, 9).unwrap();
    let draw = d.draw_texture2d_batch(&loaded, &b).unwrap();
    assert_eq!((draw.texture_id, draw.shape), (5, rd(30)));
    assert_eq!((draw.transforms, draw.colors, draw.uv_transforms, draw.instance_count), (7, 8, 9, 2));
}

#[test]
fn viewport_is_recorded() {
    let mut d = RenderDevice::new();
    d.set_viewport(Viewport { size: UVec2::new(800, 600) });
    assert_eq!(d.viewport, Viewport { size: UVec2::new(800, 600) });
}

#[test]
fn frame_stats_delta_and_fps() {
    let mut s = FrameStatsRecorder::new();
    assert_eq!(s.fps(), 0);
    s.record_frame(12, 100);
    assert_eq!((s.ellapsed, s.delta_time, s.last_frame), (12, 100, 100));
    s.record_frame(15, 116);
    assert_eq!(s.delta_time, 16);
    assert_eq!(s.fps(), 62);
    s.record_frame(1, 50);
    assert_eq!(s.delta_time, 50u128.wrapping_sub(116));
    s.frame_complete();
    assert_eq!(s.delta_time, s.last_frame.wrapping_sub(50));
}
