use vstd::prelude::*;

verus! {

/// A pair of unsigned integers: a size or a position in whole pixels.
#[derive(Clone, Copy, Debug, PartialEq, Eq, Structural)]
pub struct UVec2 {
    pub x: u32,
    pub y: u32,
}

/// A pair of signed integers: a glyph's size or bearing in whole pixels.
#[derive(Clone, Copy, Debug, PartialEq, Eq, Structural)]
pub struct IVec2 {
    pub x: i32,
    pub y: i32,
}

impl UVec2 {
    pub fn new(x: u32, y: u32) -> (r: UVec2)
        ensures
            r.x == x,
            r.y == y,
    {
        UVec2 { x, y }
    }
}


/// An axis-aligned rectangle: position and size.
#[derive(Clone, Copy, Debug, PartialEq, Eq, Default)]
pub struct Rect<T> {
    pub x: T,
    pub y: T,
    pub width: T,
    pub height: T,
}

impl<T: Copy> Rect<T> {
    pub fn get_position_vector(&self) -> (r: (T, T))
        ensures
            r == (self.x, self.y),
    {
        (self.x, self.y)
    }

    pub fn get_size_vector(&self) -> (r: (T, T))
        ensures
            r == (self.width, self.height),
    {
        (self.width, self.height)
    }
}

/// The size of the area drawn into, in pixels.
#[derive(Clone, Copy, Debug, PartialEq, Eq, Structural)]
pub struct Viewport {
    pub size: UVec2,
}

/// Texture coordinates of a quad as exact fractions: corner `k` (in the
/// order bottom-left, top-left, top-right, bottom-right) lies at
/// `(coords[2k] / width, coords[2k + 1] / height)`.
#[derive(Clone, Copy, Debug, PartialEq, Eq)]
pub struct UvQuad {
    pub coords: [u64; 8],
    pub width: u32,
    pub height: u32,
}

/// The numerators of the texture window at `point` of size `size`.
pub open spec fn uv_numerators(point: UVec2, size: UVec2) -> Seq<int> {
    let left = point.x as int;
    let bottom = point.y as int;
    let right = point.x as int + size.x as int;
    let top = point.y as int + size.y as int;
    seq![left, bottom, left, top, right, top, right, bottom]
}

/// The texture coordinates of the window at pixel `point` with pixel size
/// `size` on an image of `image_width` by `image_height` pixels.
pub fn generate_uv_coords(image_width: u32, image_height: u32, point: UVec2, size: UVec2) -> (r:
    UvQuad)
    ensures
        r.width == image_width,
        r.height == image_height,
        r.coords@.map_values(|c: u64| c as int) == uv_numerators(point, size),
{
    let left = point.x as u64;
    let bottom = point.y as u64;
    let right = point.x as u64 + size.x as u64;
    let top = point.y as u64 + size.y as u64;
    let coords = [left, bottom, left, top, right, top, right, bottom];
    assert(coords@.map_values(|c: u64| c as int) =~= uv_numerators(point, size));
    UvQuad { coords, width: image_width, height: image_height }
}

/// The window that covers a whole image maps its corners to `(0,0)`, `(0,1)`,
/// `(1,1)` and `(1,0)`; and for any window, the top edge stands `size.y / height`
/// above the bottom edge and the right edge `size.x / width` right of the left one.
pub proof fn lemma_uv_window(width: u32, height: u32, point: UVec2, size: UVec2)
    ensures
        point == (UVec2 { x: 0, y: 0 }) && size == (UVec2 { x: width, y: height })
            ==> uv_numerators(point, size) == seq![
            0int,
            0int,
            0int,
            height as int,
            width as int,
            height as int,
            width as int,
            0int,
        ],
        uv_numerators(point, size)[3] - uv_numerators(point, size)[1] == size.y as int,
        uv_numerators(point, size)[4] - uv_numerators(point, size)[2] == size.x as int,
{
    if point == (UVec2 { x: 0, y: 0 }) && size == (UVec2 { x: width, y: height }) {
        assert(uv_numerators(point, size) =~= seq![
            0int,
            0int,
            0int,
            height as int,
            width as int,
            height as int,
            width as int,
            0int,
        ]);
    }
}

/// A rectangle of a texture in pixels, as exact fractions: it spans
/// `x / columns .. (x + width) / columns` across and
/// `y / rows .. (y + height) / rows` up.
#[derive(Clone, Copy, Debug, PartialEq, Eq)]
pub struct SubImage {
    pub x: u64,
    pub y: u64,
    pub width: u64,
    pub height: u64,
    pub columns: u32,
    pub rows: u32,
}

/// Where cell `index` starts along an axis of `extent` pixels, times the
/// number of cells on that axis.
pub open spec fn cell_start(extent: int, index: int) -> int {
    index * extent
}

/// The cell in column `column_index` and row `row_index` of a texture of
/// `texture_width` by `texture_height` pixels cut into `columns` by `rows`
/// equal cells.
pub fn get_subimage(
    texture_width: u32,
    texture_height: u32,
    columns: u32,
    rows: u32,
    column_index: u32,
    row_index: u32,
) -> (r: SubImage)
    ensures
        r.x == cell_start(texture_width as int, column_index as int),
        r.y == cell_start(texture_height as int, row_index as int),
        r.width == texture_width,
        r.height == texture_height,
        r.columns == columns,
        r.rows == rows,
{
    assert((column_index as int) * (texture_width as int) <= 0xFFFF_FFFF * 0xFFFF_FFFF)
        by (nonlinear_arith)
        requires
            column_index <= 0xFFFF_FFFF,
            texture_width <= 0xFFFF_FFFF,
    ;
    assert((row_index as int) * (texture_height as int) <= 0xFFFF_FFFF * 0xFFFF_FFFF)
        by (nonlinear_arith)
        requires
            row_index <= 0xFFFF_FFFF,
            texture_height <= 0xFFFF_FFFF,
    ;
    let x = column_index as u64 * texture_width as u64;
    let y = row_index as u64 * texture_height as u64;
    SubImage {
        x,
        y,
        width: texture_width as u64,
        height: texture_height as u64,
        columns,
        rows,
    }
}

/// A texture window as scale and offset, as exact fractions:
/// `[scale_x, scale_y, offset_x, offset_y]` is
/// `[width / texture_width, height / texture_height, x / texture_width, y / texture_height]`.
#[derive(Clone, Copy, Debug, PartialEq, Eq, Structural)]
pub struct UvTransform {
    pub width: u32,
    pub height: u32,
    pub x: u32,
    pub y: u32,
    pub texture_width: u32,
    pub texture_height: u32,
}

/// The texture window that clips the rectangle at pixel (`clip_x`,
/// `clip_y`) of `clip_width` by `clip_height` pixels out of a texture of
/// `texture_width` by `texture_height` pixels.
pub fn calculate_uv_transform(
    texture_width: u32,
    texture_height: u32,
    clip_x: u32,
    clip_y: u32,
    clip_width: u32,
    clip_height: u32,
) -> (r: UvTransform)
    ensures
        r == (UvTransform {
            width: clip_width,
            height: clip_height,
            x: clip_x,
            y: clip_y,
            texture_width,
            texture_height,
        }),
{
    UvTransform {
        width: clip_width,
        height: clip_height,
        x: clip_x,
        y: clip_y,
        texture_width,
        texture_height,
    }
}

/// Cutting an axis of `extent` pixels into `count` cells of `extent / count`
/// pixels covers it with neither gap nor overlap: each cell ends where the
/// next starts, the first starts at zero, the last ends at the far edge, and
/// every point of the axis (`a / count` for `0 <= a < extent * count`) lies
/// in exactly one cell.
pub proof fn lemma_cells_tile(extent: int, count: int, a: int)
    requires
        extent > 0,
        count > 0,
        0 <= a < extent * count,
    ensures
        cell_start(extent, 0) == 0,
        cell_start(extent, count) == extent * count,
        forall|c: int| #[trigger] cell_start(extent, c + 1) == cell_start(extent, c) + extent,
        0 <= a / extent < count,
        cell_start(extent, a / extent) <= a < cell_start(extent, a / extent) + extent,
        forall|c: int|
            0 <= c < count && cell_start(extent, c) <= a < #[trigger] cell_start(extent, c) + extent
                ==> c == a / extent,
{
    assert(count * extent == extent * count) by (nonlinear_arith);
    assert forall|c: int| #[trigger] cell_start(extent, c + 1) == cell_start(extent, c) + extent by {
        assert((c + 1) * extent == c * extent + extent) by (nonlinear_arith);
    }
    let q = a / extent;
    assert(q * extent <= a < q * extent + extent) by (nonlinear_arith)
        requires
            extent > 0,
            q == a / extent,
            a >= 0,
    ;
    assert(0 <= q < count) by (nonlinear_arith)
        requires
            extent > 0,
            q * extent <= a,
            a < extent * count,
            a >= 0,
            a < q * extent + extent,
    ;
    assert forall|c: int|
        0 <= c < count && cell_start(extent, c) <= a < #[trigger] cell_start(extent, c) + extent
            implies c == q by {
        assert(c == q) by (nonlinear_arith)
            requires
                extent > 0,
                c * extent <= a < c * extent + extent,
                q * extent <= a < q * extent + extent,
        ;
    }
}

} // verus!
