//! Resource lifecycle and layout logic of a small immediate-mode renderer.
//!
//! Every GPU-backed value (image texture, shader program, instance batch,
//! render target, render data) is a tagged state machine whose transitions
//! are proved here. The graphics context itself is driven by the caller:
//! it allocates the handles that a transition records and performs the
//! uploads that a transition hands back.
pub mod error;
pub mod geometry;
pub mod image_texture;
pub mod shapes;
pub mod batch;
pub mod shader;
pub mod prebuild_shader;
pub mod render_data;
pub mod render_target;
pub mod font;
pub mod device;
pub mod frame_stats;
pub mod sprite_sheet;
pub mod lifecycle;
