use gfx_core::geometry::{calculate_uv_transform, generate_uv_coords, get_subimage, Rect, UVec2, UvTransform};
use gfx_core::image_texture::ImageTexture;
use gfx_core::sprite_sheet::{calculate_uv_transform_from_texture, get_subimage_from_texture, SpriteSheet};

#[test]
fn full_window_maps_to_unit_corners() {
    let uv = generate_uv_coords(64, 32, UVec2::new(0, 0), UVec2::new(64, 32));
    assert_eq!(uv.width, 64);
    assert_eq!(uv.height, 32);
    let corners: Vec<(f64, f64)> = (0..4)
        .map(|k| (uv.coords[2 * k] as f64 / 64.0, uv.coords[2 * k + 1] as f64 / 32.0))
        .collect();
    assert_eq!(corners, vec![(0.0, 0.0), (0.0, 1.0), (1.0, 1.0), (1.0, 0.0)]);
}

#[test]
fn sub_window_edges_follow_its_size() {
    let uv = generate_uv_coords(100, 50, UVec2::new(10, 5), UVec2::new(20, 15));
    assert_eq!(uv.coords, [10, 5, 10, 20, 30, 20, 30, 5]);
    assert_eq!(uv.coords[3] - uv.coords[1], 15);
    assert_eq!(uv.coords[4] - uv.coords[2], 20);
}

#[test]
fn subimage_cells_tile_the_texture() {
    let (w, h, cols, rows) = (64u32, 32u32, 4u32, 2u32);
    let mut covered = vec![0u32; (w * h) as usize];
    for c in 0..cols {
        for r in 0..rows {
            let s = get_subimage(w, h, cols, rows, c, r);
            assert_eq!(s.width as f64 / s.columns as f64, 16.0);
            assert_eq!(s.height as f64 / s.rows as f64, 16.0);
            let x0 = (s.x / s.columns as u64) as u32;
            let y0 = (s.y / s.rows as u64) as u32;
            for x in x0..x0 + w / cols {
                for y in y0..y0 + h / rows {
                    covered[(y * w + x) as usize] += 1;
                }
            }
        }
    }
    assert!(covered.iter().all(|&n| n == 1));
}

#[test]
fn subimage_of_second_column() {
    let s = get_subimage(30, 20, 3, 2, 1, 1);
    assert_eq!((s.x, s.y, s.width, s.height, s.columns, s.rows), (30, 20, 30, 20, 3, 2));
    assert_eq!(s.x as f64 / s.columns as f64, 10.0);
    assert_eq!(s.y as f64 / s.rows as f64, 10.0);
}

#[test]
fn uv_transform_is_window_over_texture() {
    let t = calculate_uv_transform(128, 64, 32, 16, 64, 32);
    assert_eq!(
        t,
        UvTransform { width: 64, height: 32, x: 32, y: 16, texture_width: 128, texture_height: 64 }
    );
}

#[test]
fn sprite_sheet_tiles() {
    let loaded = ImageTexture::Loaded { id: 4, dimensions: UVec2::new(64, 32) };
    let sheet = SpriteSheet::new(4, 2, &loaded).unwrap();
    assert_eq!(sheet.get_texture_id(), 4);
    assert_eq!(sheet.get_texture_dimensions(), UVec2::new(64, 32));
    assert_eq!(sheet.tile_from_index(5, false), (1, 1));
    assert_eq!(sheet.tile_from_index(5, true), (1, 0));
    assert_eq!(sheet.tile_from_index(2, true), (2, 1));
    let s = sheet.get_subimage(3, 1);
    assert_eq!((s.x / 4, s.y / 2), (48, 16));
    assert!(SpriteSheet::new(4, 2, &ImageTexture::Corrupted).is_none());
    assert_eq!(SpriteSheet::calc_columns(&loaded, 20), Some(3));
    assert_eq!(SpriteSheet::calc_rows(&loaded, 16), Some(2));
    assert_eq!(SpriteSheet::calc_tile_layout(&loaded, 16, 16), (4, 2));
    assert_eq!(SpriteSheet::calc_tile_layout(&ImageTexture::Disposed, 16, 16), (0, 0));
    let pre = ImageTexture::load_from_data(vec![0; 8 * 4 * 4], UVec2::new(8, 4));
    assert_eq!(SpriteSheet::calc_columns(&pre, 2), Some(4));
    assert!(SpriteSheet::new(1, 1, &pre).is_none());
    let cell = get_subimage_from_texture(&pre, 2, 2, 1, 0).unwrap();
    assert_eq!((cell.x, cell.y, cell.width, cell.height), (8, 0, 8, 4));
    assert!(get_subimage_from_texture(&ImageTexture::Corrupted, 2, 2, 1, 0).is_none());
}

#[test]
fn uv_transform_from_texture_uses_its_size() {
    let loaded = ImageTexture::Loaded { id: 1, dimensions: UVec2::new(100, 50) };
    let t = calculate_uv_transform_from_texture(&loaded, 10, 5, 20, 25).unwrap();
    assert_eq!((t.texture_width, t.texture_height, t.x, t.y, t.width, t.height), (100, 50, 10, 5, 20, 25));
    assert!(calculate_uv_transform_from_texture(&ImageTexture::Disposed, 0, 0, 1, 1).is_none());
}

#[test]
fn rect_vectors() {
    let r = Rect { x: 1u32, y: 2, width: 3, height: 4 };
    assert_eq!(r.get_position_vector(), (1, 2));
    assert_eq!(r.get_size_vector(), (3, 4));
}
