use vstd::prelude::*;
use crate::geometry::{SubImage, UVec2, UvTransform, calculate_uv_transform, cell_start, get_subimage};
use crate::image_texture::ImageTexture;

verus! {

/// A resident texture cut into `columns` by `rows` equal tiles.
#[derive(Clone, Copy, Debug, PartialEq, Eq, Structural)]
pub struct SpriteSheet {
    pub columns: u32,
    pub rows: u32,
    pub texture_id: u32,
    pub texture_dimensions: UVec2,
}

impl SpriteSheet {
    /// A sheet over a resident texture; any other texture gives `None`.
    pub fn new(columns: u32, rows: u32, texture: &ImageTexture) -> (r: Option<SpriteSheet>)
        ensures
            match *texture {
                ImageTexture::Loaded { id, dimensions } => r == Some(
                    SpriteSheet { columns, rows, texture_id: id, texture_dimensions: dimensions },
                ),
                _ => r is None,
            },
    {
        match texture {
            ImageTexture::Loaded { id, dimensions } => Some(
                SpriteSheet { columns, rows, texture_id: *id, texture_dimensions: *dimensions },
            ),
            _ => None,
        }
    }

    /// How many whole tiles of `tile_width` pixels fit across the texture, if
    /// it still has a size.
    pub fn calc_columns(texture: &ImageTexture, tile_width: u32) -> (r: Option<u32>)
        requires
            tile_width > 0,
        ensures
            match *texture {
                ImageTexture::PreLoad { dimensions, .. } => r == Some(dimensions.x / tile_width),
                ImageTexture::Loaded { dimensions, .. } => r == Some(dimensions.x / tile_width),
                _ => r is None,
            },
    {
        match texture.dimensions() {
            Some(d) => Some(d.x / tile_width),
            None => None,
        }
    }

    /// How many whole tiles of `tile_height` pixels fit up the texture, if it
    /// still has a size.
    pub fn calc_rows(texture: &ImageTexture, tile_height: u32) -> (r: Option<u32>)
        requires
            tile_height > 0,
        ensures
            match *texture {
                ImageTexture::PreLoad { dimensions, .. } => r == Some(dimensions.y / tile_height),
                ImageTexture::Loaded { dimensions, .. } => r == Some(dimensions.y / tile_height),
                _ => r is None,
            },
    {
        match texture.dimensions() {
            Some(d) => Some(d.y / tile_height),
            None => None,
        }
    }

    /// The columns and rows of whole tiles; zero for a texture without a size.
    pub fn calc_tile_layout(texture: &ImageTexture, tile_width: u32, tile_height: u32) -> (r: (
        u32,
        u32,
    ))
        requires
            tile_width > 0,
            tile_height > 0,
        ensures
            match *texture {
                ImageTexture::PreLoad { dimensions, .. } => r == (
                    dimensions.x / tile_width,
                    dimensions.y / tile_height,
                ),
                ImageTexture::Loaded { dimensions, .. } => r == (
                    dimensions.x / tile_width,
                    dimensions.y / tile_height,
                ),
                _ => r == (0u32, 0u32),
            },
    {
        let columns = match SpriteSheet::calc_columns(texture, tile_width) {
            Some(c) => c,
            None => 0,
        };
        let rows = match SpriteSheet::calc_rows(texture, tile_height) {
            Some(r) => r,
            None => 0,
        };
        (columns, rows)
    }

    /// The tile in `column` and `row`.
    pub fn get_subimage(&self, column: u32, row: u32) -> (r: SubImage)
        ensures
            r.x == cell_start(self.texture_dimensions.x as int, column as int),
            r.y == cell_start(self.texture_dimensions.y as int, row as int),
            r.width == self.texture_dimensions.x,
            r.height == self.texture_dimensions.y,
            r.columns == self.columns,
            r.rows == self.rows,
    {
        get_subimage(
            self.texture_dimensions.x,
            self.texture_dimensions.y,
            self.columns,
            self.rows,
            column,
            row,
        )
    }

    pub fn get_texture_id(&self) -> (r: u32)
        ensures
            r == self.texture_id,
    {
        self.texture_id
    }

    pub fn get_texture_dimensions(&self) -> (r: UVec2)
        ensures
            r == self.texture_dimensions,
    {
        self.texture_dimensions
    }

    /// The column and row of tile `index`, counting along rows from the
    /// first; with `reversed_row` the rows are counted from the last.
    pub fn tile_from_index(&self, index: u32, reversed_row: bool) -> (r: (u32, u32))
        requires
            self.columns > 0,
            reversed_row ==> index / self.columns < self.rows,
        ensures
            r.0 == index % self.columns,
            !reversed_row ==> r.1 == index / self.columns,
            reversed_row ==> r.1 == self.rows - 1 - index / self.columns,
    {
        let col = index % self.columns;
        let mut row = index / self.columns;
        if reversed_row {
            row = self.rows - 1 - row;
        }
        (col, row)
    }
}

/// The texture window of the pixel rectangle at (`clip_x`, `clip_y`) of
/// `clip_width` by `clip_height` pixels on a texture that still has a size.
pub fn calculate_uv_transform_from_texture(
    image_texture: &ImageTexture,
    clip_x: u32,
    clip_y: u32,
    clip_width: u32,
    clip_height: u32,
) -> (r: Option<UvTransform>)
    ensures
        match image_texture.dimensions_spec() {
            Some(d) => r == Some(
                UvTransform {
                    width: clip_width,
                    height: clip_height,
                    x: clip_x,
                    y: clip_y,
                    texture_width: d.x,
                    texture_height: d.y,
                },
            ),
            None => r is None,
        },
{
    match image_texture.dimensions() {
        Some(d) => Some(calculate_uv_transform(d.x, d.y, clip_x, clip_y, clip_width, clip_height)),
        None => None,
    }
}

/// The cell in `column_index` and `row_index` of a texture that still has a
/// size, cut into `columns` by `rows` cells.
pub fn get_subimage_from_texture(
    image_texture: &ImageTexture,
    columns: u32,
    rows: u32,
    column_index: u32,
    row_index: u32,
) -> (r: Option<SubImage>)
    ensures
        match *image_texture {
            ImageTexture::PreLoad { dimensions, .. } => r matches Some(c) && c.x == cell_start(
                dimensions.x as int,
                column_index as int,
            ) && c.y == cell_start(dimensions.y as int, row_index as int) && c.width == dimensions.x
                && c.height == dimensions.y && c.columns == columns && c.rows == rows,
            ImageTexture::Loaded { dimensions, .. } => r matches Some(c) && c.x == cell_start(
                dimensions.x as int,
                column_index as int,
            ) && c.y == cell_start(dimensions.y as int, row_index as int) && c.width == dimensions.x
                && c.height == dimensions.y && c.columns == columns && c.rows == rows,
            _ => r is None,
        },
{
    match image_texture.dimensions() {
        Some(d) => Some(get_subimage(d.x, d.y, columns, rows, column_index, row_index)),
        None => None,
    }
}

} // verus!
