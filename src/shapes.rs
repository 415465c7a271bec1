use vstd::prelude::*;

verus! {

/// IEEE-754 single-precision bit patterns of the coordinates the shapes use.
pub const F32_ZERO: u32 = 0x0000_0000;
pub const F32_ONE: u32 = 0x3F80_0000;
pub const F32_MINUS_ONE: u32 = 0xBF80_0000;
pub const F32_HALF: u32 = 0x3F00_0000;
pub const F32_MINUS_HALF: u32 = 0xBF00_0000;

/// Built-in geometry: vertex positions (three floats per vertex), texture
/// coordinates (two floats per vertex), triangle indices and normals, each
/// present or not. Floats are given as their IEEE-754 bit patterns.
pub trait Shape {
    spec fn vertex_words(&self) -> Option<Seq<u32>>;

    spec fn uv_words(&self) -> Option<Seq<u32>>;

    spec fn index_words(&self) -> Option<Seq<u32>>;

    spec fn normal_words(&self) -> Option<Seq<u32>>;

    fn get_vertex_buffer(&self) -> (r: Option<Vec<u32>>)
        ensures
            match r {
                Some(v) => self.vertex_words() == Some(v@),
                None => self.vertex_words() is None,
            },
    ;

    fn get_uv_buffer(&self) -> (r: Option<Vec<u32>>)
        ensures
            match r {
                Some(v) => self.uv_words() == Some(v@),
                None => self.uv_words() is None,
            },
    ;

    fn get_index_buffer(&self) -> (r: Option<Vec<u32>>)
        ensures
            match r {
                Some(v) => self.index_words() == Some(v@),
                None => self.index_words() is None,
            },
    ;

    fn get_normal_buffer(&self) -> (r: Option<Vec<u32>>)
        ensures
            match r {
                Some(v) => self.normal_words() == Some(v@),
                None => self.normal_words() is None,
            },
    ;
}

/// The corners of a quad centred on the origin with half-extent `h`, in the
/// order bottom-left, top-left, top-right, bottom-right.
pub open spec fn quad_vertices(h: u32, minus_h: u32) -> Seq<u32> {
    seq![
        minus_h, minus_h, F32_ZERO,
        minus_h, h, F32_ZERO,
        h, h, F32_ZERO,
        h, minus_h, F32_ZERO,
    ]
}

/// Texture coordinates of the whole texture, in the corner order of `quad_vertices`.
pub open spec fn full_uvs() -> Seq<u32> {
    seq![F32_ZERO, F32_ZERO, F32_ZERO, F32_ONE, F32_ONE, F32_ONE, F32_ONE, F32_ZERO]
}

/// Two triangles over the four corners.
pub open spec fn quad_indices() -> Seq<u32> {
    seq![0u32, 1u32, 3u32, 3u32, 1u32, 2u32]
}

fn quad_vertex_vec(h: u32, minus_h: u32) -> (r: Vec<u32>)
    ensures
        r@ == quad_vertices(h, minus_h),
{
    let r = vec![
        minus_h, minus_h, F32_ZERO,
        minus_h, h, F32_ZERO,
        h, h, F32_ZERO,
        h, minus_h, F32_ZERO,
    ];
    assert(r@ =~= quad_vertices(h, minus_h));
    r
}

fn full_uv_vec() -> (r: Vec<u32>)
    ensures
        r@ == full_uvs(),
{
    let r = vec![F32_ZERO, F32_ZERO, F32_ZERO, F32_ONE, F32_ONE, F32_ONE, F32_ONE, F32_ZERO];
    assert(r@ =~= full_uvs());
    r
}

fn quad_index_vec() -> (r: Vec<u32>)
    ensures
        r@ == quad_indices(),
{
    let r = vec![0u32, 1u32, 3u32, 3u32, 1u32, 2u32];
    assert(r@ =~= quad_indices());
    r
}

/// A quad that covers the whole clip space, for drawing a framebuffer to the screen.
pub struct FramebufferShape;

impl Shape for FramebufferShape {
    open spec fn vertex_words(&self) -> Option<Seq<u32>> {
        Some(quad_vertices(F32_ONE, F32_MINUS_ONE))
    }

    open spec fn uv_words(&self) -> Option<Seq<u32>> {
        Some(full_uvs())
    }

    open spec fn index_words(&self) -> Option<Seq<u32>> {
        Some(quad_indices())
    }

    open spec fn normal_words(&self) -> Option<Seq<u32>> {
        None
    }

    fn get_vertex_buffer(&self) -> (r: Option<Vec<u32>>) {
        Some(quad_vertex_vec(F32_ONE, F32_MINUS_ONE))
    }

    fn get_uv_buffer(&self) -> (r: Option<Vec<u32>>) {
        Some(full_uv_vec())
    }

    fn get_index_buffer(&self) -> (r: Option<Vec<u32>>) {
        Some(quad_index_vec())
    }

    fn get_normal_buffer(&self) -> (r: Option<Vec<u32>>) {
        None
    }
}

/// A unit quad centred on the origin, for textured sprites.
pub struct TextureShape;

impl Shape for TextureShape {
    open spec fn vertex_words(&self) -> Option<Seq<u32>> {
        Some(quad_vertices(F32_HALF, F32_MINUS_HALF))
    }

    open spec fn uv_words(&self) -> Option<Seq<u32>> {
        Some(full_uvs())
    }

    open spec fn index_words(&self) -> Option<Seq<u32>> {
        Some(quad_indices())
    }

    open spec fn normal_words(&self) -> Option<Seq<u32>> {
        None
    }

    fn get_vertex_buffer(&self) -> (r: Option<Vec<u32>>) {
        Some(quad_vertex_vec(F32_HALF, F32_MINUS_HALF))
    }

    fn get_uv_buffer(&self) -> (r: Option<Vec<u32>>) {
        Some(full_uv_vec())
    }

    fn get_index_buffer(&self) -> (r: Option<Vec<u32>>) {
        Some(quad_index_vec())
    }

    fn get_normal_buffer(&self) -> (r: Option<Vec<u32>>) {
        None
    }
}

/// A unit quad centred on the origin without texture coordinates, for
/// filled and stroked rectangles.
pub struct RectShape;

impl Shape for RectShape {
    open spec fn vertex_words(&self) -> Option<Seq<u32>> {
        Some(quad_vertices(F32_HALF, F32_MINUS_HALF))
    }

    open spec fn uv_words(&self) -> Option<Seq<u32>> {
        None
    }

    open spec fn index_words(&self) -> Option<Seq<u32>> {
        Some(quad_indices())
    }

    open spec fn normal_words(&self) -> Option<Seq<u32>> {
        None
    }

    fn get_vertex_buffer(&self) -> (r: Option<Vec<u32>>) {
        Some(quad_vertex_vec(F32_HALF, F32_MINUS_HALF))
    }

    fn get_uv_buffer(&self) -> (r: Option<Vec<u32>>) {
        None
    }

    fn get_index_buffer(&self) -> (r: Option<Vec<u32>>) {
        Some(quad_index_vec())
    }

    fn get_normal_buffer(&self) -> (r: Option<Vec<u32>>) {
        None
    }
}

} // verus!
