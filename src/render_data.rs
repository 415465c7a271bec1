use vstd::prelude::*;

verus! {

/// The GPU handles of one piece of drawable geometry: a vertex array and
/// its position, index, texture-coordinate, normal and tangent buffers, and
/// the number of indices to draw. A handle of zero names no object.
#[derive(Clone, Copy, Debug, PartialEq, Eq, Structural)]
pub struct RenderData {
    pub vao: u32,
    pub vbo: u32,
    pub ibo: u32,
    pub tbo: u32,
    pub nbo: u32,
    pub tabo: u32,
    pub index_count: u32,
}

impl RenderData {
    /// Render data with no GPU objects and nothing to draw.
    pub open spec fn empty() -> RenderData {
        RenderData { vao: 0, vbo: 0, ibo: 0, tbo: 0, nbo: 0, tabo: 0, index_count: 0 }
    }

    /// The same geometry with every handle released.
    pub open spec fn released(self) -> RenderData {
        RenderData { vao: 0, vbo: 0, ibo: 0, tbo: 0, nbo: 0, tabo: 0, ..self }
    }

    pub fn new() -> (r: RenderData)
        ensures
            r == RenderData::empty(),
    {
        RenderData { vao: 0, vbo: 0, ibo: 0, tbo: 0, nbo: 0, tabo: 0, index_count: 0 }
    }
}

impl Default for RenderData {
    fn default() -> (r: RenderData)
        ensures
            r == RenderData::empty(),
    {
        RenderData::new()
    }
}

} // verus!
