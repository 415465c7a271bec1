use vstd::prelude::*;
use crate::geometry::UVec2;

verus! {

/// An offscreen framebuffer with a color texture and a combined
/// depth/stencil renderbuffer attached.
#[derive(Clone, Copy, Debug, PartialEq, Eq, Structural)]
pub struct RenderTarget {
    pub size: UVec2,
    pub framebuffer_id: u32,
    pub texture_id: u32,
    pub renderbuffer_id: u32,
}

impl RenderTarget {
    /// The three handles are all live or all released.
    pub open spec fn wf(self) -> bool {
        ||| (self.framebuffer_id != 0 && self.texture_id != 0 && self.renderbuffer_id != 0)
        ||| (self.framebuffer_id == 0 && self.texture_id == 0 && self.renderbuffer_id == 0)
    }

    pub open spec fn is_resident(self) -> bool {
        self.framebuffer_id != 0 && self.texture_id != 0 && self.renderbuffer_id != 0
    }
}

} // verus!
