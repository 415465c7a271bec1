use gfx_core::device::RenderDevice;
use gfx_core::error::LifecycleError;
use gfx_core::geometry::UVec2;
use gfx_core::image_texture::{ColorMode, DecodedImage, ImageTexture, GL_RGB, GL_RGBA};

fn preload_2x2() -> ImageTexture {
    ImageTexture::load_from_data(vec![7u8; 16], UVec2::new(2, 2))
}

#[test]
fn load_from_data_keeps_matching_pixels() {
    match preload_2x2() {
        ImageTexture::PreLoad { path, dimensions, data, mode } => {
            assert_eq!(path, "");
            assert_eq!(dimensions, UVec2 { x: 2, y: 2 });
            assert_eq!(data, vec![7u8; 16]);
            assert_eq!(mode, ColorMode::RGBA);
        }
        _ => panic!("expected a pre-upload texture"),
    }
}

#[test]
fn load_from_data_with_wrong_length_is_corrupted() {
    let t = ImageTexture::load_from_data(vec![0u8; 15], UVec2::new(2, 2));
    assert!(matches!(t, ImageTexture::Corrupted));
}

#[test]
fn color_mode_constants() {
    assert_eq!(ColorMode::RGBA.as_u32(), 0x1908);
    assert_eq!(ColorMode::RGB.as_u32(), 0x1907);
    assert_eq!(ColorMode::RGB.as_i32(), GL_RGB as i32);
    assert_eq!(ColorMode::RGBA.as_glint(), GL_RGBA as i32);
    assert_eq!(ColorMode::default(), ColorMode::RGBA);
    assert_eq!(ColorMode::RGB.channel_count(), 3);
}

#[test]
fn from_decoded_checks_channels_and_length() {
    let ok = ImageTexture::from_decoded(
        String::from("a.png"),
        Some(DecodedImage { width: 1, height: 2, depth: 3, data: vec![1, 2, 3, 4, 5, 6] }),
    );
    match ok {
        ImageTexture::PreLoad { path, dimensions, mode, .. } => {
            assert_eq!(path, "a.png");
            assert_eq!(dimensions, UVec2 { x: 1, y: 2 });
            assert_eq!(mode, ColorMode::RGB);
        }
        _ => panic!("expected a pre-upload texture"),
    }
    let two_channels = ImageTexture::from_decoded(
        String::from("b.png"),
        Some(DecodedImage { width: 1, height: 1, depth: 2, data: vec![1, 2] }),
    );
    assert!(matches!(two_channels, ImageTexture::Corrupted));
    let short = ImageTexture::from_decoded(
        String::from("c.png"),
        Some(DecodedImage { width: 2, height: 2, depth: 4, data: vec![0; 15] }),
    );
    assert!(matches!(short, ImageTexture::Corrupted));
    assert!(matches!(ImageTexture::from_decoded(String::from("d.png"), None), ImageTexture::Corrupted));
}

#[test]
fn malformed_bytes_decode_to_corrupted_and_are_not_loaded() {
    let mut t = ImageTexture::load_from_memory(String::from("bad.png"), b"not an image at all");
    assert!(matches!(t, ImageTexture::Corrupted));
    assert!(!t.is_preload());
    let mut device = RenderDevice::new();
    let r = device.load_texture(&mut t, 5);
    assert_eq!(r.err(), Some(LifecycleError::NotPreLoad));
    assert!(matches!(t, ImageTexture::Corrupted));
}

#[test]
fn portable_pixmap_decodes_to_rgb_pixels() {
    // binary pixmap header: magic number, width and height, maximum value
    let mut bytes: Vec<u8> = vec![0x50, 0x36];
    bytes.extend_from_slice(b"\n2 1\n255\n");
    bytes.extend_from_slice(&[10, 20, 30, 40, 50, 60]);
    let t = ImageTexture::load_from_memory(String::from("tiny.ppm"), &bytes);
    match t {
        ImageTexture::PreLoad { path, dimensions, data, mode } => {
            assert_eq!(path, "tiny.ppm");
            assert_eq!(dimensions, UVec2 { x: 2, y: 1 });
            assert_eq!(data, vec![10, 20, 30, 40, 50, 60]);
            assert_eq!(mode, ColorMode::RGB);
        }
        _ => panic!("expected decoded pixels"),
    }
}

#[test]
fn load_then_dispose_round_trip() {
    let mut device = RenderDevice::new();
    let mut t = preload_2x2();
    let up = device.load_texture(&mut t, 9).unwrap();
    assert_eq!(up.data, vec![7u8; 16]);
    assert_eq!(up.dimensions, UVec2 { x: 2, y: 2 });
    assert_eq!(up.mode, ColorMode::RGBA);
    assert!(matches!(t, ImageTexture::Loaded { id: 9, dimensions: UVec2 { x: 2, y: 2 } }));
    assert_eq!(t.loaded_id(), Ok(9));
    assert_eq!(device.dispose_image_texture(&mut t), Ok(9));
    assert!(matches!(t, ImageTexture::Disposed));
    assert_eq!(device.dispose_image_texture(&mut t), Err(LifecycleError::AlreadyDisposed));
    assert!(matches!(t, ImageTexture::Disposed));
}

#[test]
fn load_refuses_zero_handle_and_resident_texture() {
    let mut device = RenderDevice::new();
    let mut t = preload_2x2();
    assert_eq!(device.load_texture(&mut t, 0).err(), Some(LifecycleError::NullHandle));
    assert!(t.is_preload());
    device.load_texture(&mut t, 3).unwrap();
    assert_eq!(device.load_texture(&mut t, 4).err(), Some(LifecycleError::NotPreLoad));
    assert!(matches!(t, ImageTexture::Loaded { id: 3, .. }));
}

#[test]
fn dispose_of_preload_texture_is_refused() {
    let mut device = RenderDevice::new();
    let mut t = preload_2x2();
    assert_eq!(device.dispose_image_texture(&mut t), Err(LifecycleError::NotLoaded));
    assert!(t.is_preload());
    assert_eq!(t.loaded_id(), Err(LifecycleError::NotLoaded));
}
