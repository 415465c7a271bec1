use vstd::prelude::*;
use crate::batch::{
    Texture2DBatch, Texture2DInstance, MAX_BATCH_INSTANCES, WORD_BYTES, transform_stream,
    color_stream, uv_transform_stream,
};
use crate::error::LifecycleError;
use crate::geometry::{UVec2, UvQuad, Viewport, generate_uv_coords, uv_numerators};
use crate::image_texture::{ImageTexture, PixelUpload};
use crate::render_data::RenderData;
use crate::render_target::RenderTarget;
use crate::shader::ShaderProgram;
use crate::shapes::Shape;
use crate::font::Font;

verus! {

/// The built-in geometry every textured or rectangle draw uses.
#[derive(Clone, Copy, Debug, PartialEq, Eq, Structural)]
pub struct BuiltinShapes {
    /// A quad over the whole clip space, for drawing render targets.
    pub framebuffer_shape: RenderData,
    /// A unit quad for single sprites.
    pub texture_shape: RenderData,
    /// A unit quad for instanced batches.
    pub texture_batch_shape: RenderData,
    /// A unit quad without texture coordinates, for rectangles.
    pub rect_shape: RenderData,
}

/// Names of the built-in shapes.
#[derive(Clone, Copy, Debug, PartialEq, Eq, Structural)]
pub enum BuiltinShape {
    Framebuffer,
    Texture,
    TextureBatch,
    Rect,
}

impl BuiltinShapes {
    pub open spec fn get(self, which: BuiltinShape) -> RenderData {
        match which {
            BuiltinShape::Framebuffer => self.framebuffer_shape,
            BuiltinShape::Texture => self.texture_shape,
            BuiltinShape::TextureBatch => self.texture_batch_shape,
            BuiltinShape::Rect => self.rect_shape,
        }
    }
}

/// A write of `words` into the GPU buffer `buffer`, starting `offset` bytes in.
#[derive(Clone, Debug, PartialEq, Eq)]
pub struct BufferWrite {
    pub buffer: u32,
    pub offset: u64,
    pub words: Vec<u32>,
}

/// The words of a batch's three per-instance streams, to be uploaded into
/// the buffers its load recorded.
#[derive(Clone, Debug)]
pub struct BatchBuffers {
    pub transforms: Vec<u32>,
    pub colors: Vec<u32>,
    pub uv_transforms: Vec<u32>,
}

/// What a single-texture draw binds: the texture, the texture window, and
/// the quad to draw it on.
#[derive(Clone, Copy, Debug, PartialEq, Eq)]
pub struct TextureDraw {
    pub texture_id: u32,
    pub uv: UvQuad,
    pub shape: RenderData,
}

/// What an instanced batch draw binds.
#[derive(Clone, Copy, Debug, PartialEq, Eq, Structural)]
pub struct BatchDraw {
    pub texture_id: u32,
    pub shape: RenderData,
    pub transforms: u32,
    pub colors: u32,
    pub uv_transforms: u32,
    pub instance_count: u32,
}

/// The device's own state: the viewport, the bound shader program and the
/// built-in shapes, present once the device is initialized.
#[derive(Clone, Copy, Debug)]
pub struct RenderDevice {
    pub viewport: Viewport,
    pub shader_program: u32,
    pub shapes: Option<BuiltinShapes>,
}

impl RenderDevice {
    /// A device bound to no context yet.
    pub fn new() -> (r: RenderDevice)
        ensures
            r.viewport == (Viewport { size: UVec2 { x: 0, y: 0 } }),
            r.shader_program == 0,
            r.shapes is None,
    {
        RenderDevice {
            viewport: Viewport { size: UVec2 { x: 0, y: 0 } },
            shader_program: 0,
            shapes: None,
        }
    }

    /// Records the built-in shapes once the context has them. A second
    /// initialization is refused and changes nothing.
    pub fn init(&mut self, shapes: BuiltinShapes) -> (r: Result<(), LifecycleError>)
        ensures
            final(self).viewport == old(self).viewport,
            final(self).shader_program == old(self).shader_program,
            old(self).shapes is None ==> r is Ok && final(self).shapes == Some(shapes),
            old(self).shapes is Some ==> r == Err::<(), LifecycleError>(
                LifecycleError::AlreadyInitialized,
            ) && final(self).shapes == old(self).shapes,
    {
        if self.shapes.is_some() {
            Err(LifecycleError::AlreadyInitialized)
        } else {
            self.shapes = Some(shapes);
            Ok(())
        }
    }

    /// The built-in shape `which`, once the device is initialized.
    pub fn shape(&self, which: BuiltinShape) -> (r: Result<RenderData, LifecycleError>)
        ensures
            match self.shapes {
                Some(s) => r == Ok::<RenderData, LifecycleError>(s.get(which)),
                None => r == Err::<RenderData, LifecycleError>(LifecycleError::NotInitialized),
            },
    {
        match self.shapes {
            Some(s) => Ok(
                match which {
                    BuiltinShape::Framebuffer => s.framebuffer_shape,
                    BuiltinShape::Texture => s.texture_shape,
                    BuiltinShape::TextureBatch => s.texture_batch_shape,
                    BuiltinShape::Rect => s.rect_shape,
                },
            ),
            None => Err(LifecycleError::NotInitialized),
        }
    }

    pub fn set_viewport(&mut self, viewport: Viewport)
        ensures
            final(self).viewport == viewport,
            final(self).shader_program == old(self).shader_program,
            final(self).shapes == old(self).shapes,
    {
        self.viewport = viewport;
    }

    /// Hands back the built-in shapes for release and returns the device to
    /// its uninitialized state.
    pub fn dispose(&mut self) -> (r: Option<BuiltinShapes>)
        ensures
            r == old(self).shapes,
            final(self).shapes is None,
            final(self).viewport == old(self).viewport,
            final(self).shader_program == old(self).shader_program,
    {
        let r = self.shapes;
        self.shapes = None;
        r
    }

    /// The render data of `shape` uploaded into the vertex array `vao` and the
    /// buffers `vbo` (positions), `tbo` (texture coordinates) and `ibo`
    /// (indices). A shape without texture coordinates records no `tbo`.
    pub fn init_shape<T: Shape>(&mut self, shape: &T, vao: u32, vbo: u32, tbo: u32, ibo: u32) -> (r:
        Result<RenderData, LifecycleError>)
        ensures
            vao == 0 || vbo == 0 || ibo == 0 || (shape.uv_words() is Some && tbo == 0) ==> r
                == Err::<RenderData, LifecycleError>(LifecycleError::NullHandle),
            !(vao == 0 || vbo == 0 || ibo == 0 || (shape.uv_words() is Some && tbo == 0)) ==> (
            match shape.index_words() {
                Some(ix) => if ix.len() <= u32::MAX {
                    r == Ok::<RenderData, LifecycleError>(
                        RenderData {
                            vao,
                            vbo,
                            ibo,
                            tbo: if shape.uv_words() is Some {
                                tbo
                            } else {
                                0
                            },
                            nbo: 0,
                            tabo: 0,
                            index_count: ix.len() as u32,
                        },
                    )
                } else {
                    r == Err::<RenderData, LifecycleError>(LifecycleError::BufferTooLarge)
                },
                None => r == Ok::<RenderData, LifecycleError>(
                    RenderData {
                        vao,
                        vbo,
                        ibo,
                        tbo: if shape.uv_words() is Some {
                            tbo
                        } else {
                            0
                        },
                        nbo: 0,
                        tabo: 0,
                        index_count: 0,
                    },
                ),
            }),
            *final(self) == *old(self),
    {
        let has_uv = shape.get_uv_buffer().is_some();
        if vao == 0 || vbo == 0 || ibo == 0 || (has_uv && tbo == 0) {
            return Err(LifecycleError::NullHandle);
        }
        let index_count: u32 = match shape.get_index_buffer() {
            Some(ix) => {
                if ix.len() > u32::MAX as usize {
                    return Err(LifecycleError::BufferTooLarge);
                }
                ix.len() as u32
            },
            None => 0,
        };
        Ok(
            RenderData {
                vao,
                vbo,
                ibo,
                tbo: if has_uv {
                    tbo
                } else {
                    0
                },
                nbo: 0,
                tabo: 0,
                index_count,
            },
        )
    }

    /// Releases the handles of `render_data`: they are returned for deletion
    /// and zeroed in place; the index count is kept.
    pub fn dispose_render_data(&mut self, render_data: &mut RenderData) -> (r: RenderData)
        ensures
            r == *old(render_data),
            *final(render_data) == old(render_data).released(),
            *final(self) == *old(self),
    {
        let r = *render_data;
        render_data.vao = 0;
        render_data.vbo = 0;
        render_data.ibo = 0;
        render_data.tbo = 0;
        render_data.nbo = 0;
        render_data.tabo = 0;
        r
    }

    /// Records the upload of a pre-upload texture into the texture object
    /// `texture_id`: the texture becomes resident and its pixel bytes are
    /// handed back for the upload. Any other state, or a zero handle, is
    /// refused and leaves the texture unchanged.
    pub fn load_texture(&mut self, image_texture: &mut ImageTexture, texture_id: u32) -> (r: Result<
        PixelUpload,
        LifecycleError,
    >)
        ensures
            *final(image_texture) == old(image_texture).after_load(texture_id),
            old(image_texture).wf() ==> final(image_texture).wf(),
            match old(image_texture).load_refusal(texture_id) {
                Some(e) => r == Err::<PixelUpload, LifecycleError>(e),
                None => r matches Ok(up) && (*old(image_texture) matches ImageTexture::PreLoad {
                    dimensions,
                    data,
                    mode,
                    ..
                } && up.dimensions == dimensions && up.data@ == data@ && up.mode == mode),
            },
            *final(self) == *old(self),
    {
        if !image_texture.is_preload() {
            return Err(LifecycleError::NotPreLoad);
        }
        if texture_id == 0 {
            return Err(LifecycleError::NullHandle);
        }
        let mut old_texture = ImageTexture::Disposed;
        std::mem::swap(image_texture, &mut old_texture);
        match old_texture {
            ImageTexture::PreLoad { dimensions, data, mode, .. } => {
                *image_texture = ImageTexture::Loaded { id: texture_id, dimensions };
                Ok(PixelUpload { dimensions, mode, data })
            },
            other => {
                *image_texture = other;
                Err(LifecycleError::NotPreLoad)
            },
        }
    }

    /// Releases a resident texture: it becomes `Disposed` and its handle is
    /// returned for deletion. Any other state is refused and left unchanged.
    pub fn dispose_image_texture(&mut self, image_texture: &mut ImageTexture) -> (r: Result<
        u32,
        LifecycleError,
    >)
        ensures
            *final(image_texture) == old(image_texture).after_dispose(),
            match old(image_texture).dispose_refusal() {
                Some(e) => r == Err::<u32, LifecycleError>(e),
                None => r == Ok::<u32, LifecycleError>(old(image_texture)->id),
            },
            *final(self) == *old(self),
    {
        match image_texture {
            ImageTexture::Loaded { id, .. } => {
                let id = *id;
                *image_texture = ImageTexture::Disposed;
                Ok(id)
            },
            ImageTexture::Disposed => Err(LifecycleError::AlreadyDisposed),
            _ => Err(LifecycleError::NotLoaded),
        }
    }
}

impl RenderDevice {
    /// Records the upload of a pre-upload batch into the buffers `mbo`
    /// (transforms), `cbo` (colors) and `uvto` (texture windows): the batch
    /// becomes resident with the same instances, and the words of the three
    /// streams are handed back for the upload.
    pub fn load_texture2d_batch(
        &mut self,
        instance_batch: &mut Texture2DBatch,
        mbo: u32,
        cbo: u32,
        uvto: u32,
    ) -> (r: Result<BatchBuffers, LifecycleError>)
        ensures
            *final(instance_batch) == old(instance_batch).after_load(mbo, cbo, uvto),
            old(instance_batch).wf() ==> final(instance_batch).wf(),
            match old(instance_batch).load_refusal(mbo, cbo, uvto) {
                Some(e) => r == Err::<BatchBuffers, LifecycleError>(e),
                None => r matches Ok(b) && b.transforms@ == transform_stream(
                    old(instance_batch).instances(),
                ) && b.colors@ == color_stream(old(instance_batch).instances())
                    && b.uv_transforms@ == uv_transform_stream(old(instance_batch).instances()),
            },
            *final(self) == *old(self),
    {
        let count = match instance_batch {
            Texture2DBatch::PreLoad { instances } => instances.len(),
            _ => {
                return Err(LifecycleError::NotPreLoad);
            },
        };
        if mbo == 0 || cbo == 0 || uvto == 0 {
            return Err(LifecycleError::NullHandle);
        }
        if count > MAX_BATCH_INSTANCES {
            return Err(LifecycleError::BufferTooLarge);
        }
        let mut old_batch = Texture2DBatch::new();
        std::mem::swap(instance_batch, &mut old_batch);
        match old_batch {
            Texture2DBatch::PreLoad { instances } => {
                let buffers = Texture2DBatch::create_buffers(&instances);
                *instance_batch = Texture2DBatch::Loaded { instances, mbo, cbo, uvto };
                Ok(BatchBuffers { transforms: buffers.0, colors: buffers.1, uv_transforms: buffers.2 })
            },
            other => {
                *instance_batch = other;
                Err(LifecycleError::NotPreLoad)
            },
        }
    }

    /// Replaces instance `index` of a resident batch and hands back the
    /// three partial buffer writes that bring its GPU streams up to date:
    /// the instance's transform, color and texture window, each at the
    /// instance's offset in its stream. A batch that is not resident is
    /// refused and left unchanged.
    pub fn update_texture2d_batch_instance(
        &mut self,
        texture2d_batch: &mut Texture2DBatch,
        index: isize,
        instance: Texture2DInstance,
    ) -> (r: Result<Vec<BufferWrite>, LifecycleError>)
        requires
            *old(texture2d_batch) is Loaded ==> 0 <= index < old(texture2d_batch).instances().len(),
            old(texture2d_batch).wf(),
        ensures
            final(texture2d_batch).updated_from(*old(texture2d_batch), index as int, instance),
            final(texture2d_batch).wf(),
            match *old(texture2d_batch) {
                Texture2DBatch::Loaded { mbo, cbo, uvto, .. } => r matches Ok(w) && w@.len() == 3
                    && w@[0].buffer == mbo && w@[0].offset == index * 64 && w@[0].words@
                    == instance.transform@ && w@[1].buffer == cbo && w@[1].offset == index * 16
                    && w@[1].words@ == instance.color@ && w@[2].buffer == uvto && w@[2].offset
                    == index * 16 && w@[2].words@ == instance.uv_transform@,
                Texture2DBatch::Disposed { .. } => r == Err::<Vec<BufferWrite>, LifecycleError>(
                    LifecycleError::AlreadyDisposed,
                ),
                _ => r == Err::<Vec<BufferWrite>, LifecycleError>(LifecycleError::NotLoaded),
            },
            *final(self) == *old(self),
    {
        match texture2d_batch {
            Texture2DBatch::Loaded { instances, mbo, cbo, uvto } => {
                let i = index as usize;
                instances.set(i, instance);
                let at = i as u64;
                let mut writes: Vec<BufferWrite> = Vec::new();
                writes.push(
                    BufferWrite {
                        buffer: *mbo,
                        offset: at * 16 * WORD_BYTES,
                        words: words_of(&instance.transform),
                    },
                );
                writes.push(
                    BufferWrite {
                        buffer: *cbo,
                        offset: at * 4 * WORD_BYTES,
                        words: words_of(&instance.color),
                    },
                );
                writes.push(
                    BufferWrite {
                        buffer: *uvto,
                        offset: at * 4 * WORD_BYTES,
                        words: words_of(&instance.uv_transform),
                    },
                );
                Ok(writes)
            },
            Texture2DBatch::Disposed { .. } => Err(LifecycleError::AlreadyDisposed),
            _ => Err(LifecycleError::NotLoaded),
        }
    }

    /// Releases a resident batch: it becomes `Disposed`, keeping its
    /// instances, and its three buffer handles are returned for deletion.
    pub fn dispose_texture2d_batch(&mut self, instance_batch: &mut Texture2DBatch) -> (r: Result<
        (u32, u32, u32),
        LifecycleError,
    >)
        ensures
            *final(instance_batch) == old(instance_batch).after_dispose(),
            match old(instance_batch).resident_refusal() {
                Some(e) => r == Err::<(u32, u32, u32), LifecycleError>(e),
                None => r == Ok::<(u32, u32, u32), LifecycleError>(
                    (old(instance_batch)->mbo, old(instance_batch)->cbo, old(instance_batch)->uvto),
                ),
            },
            *final(self) == *old(self),
    {
        match instance_batch {
            Texture2DBatch::Loaded { .. } => {},
            Texture2DBatch::Disposed { .. } => {
                return Err(LifecycleError::AlreadyDisposed);
            },
            _ => {
                return Err(LifecycleError::NotLoaded);
            },
        }
        let mut old_batch = Texture2DBatch::new();
        std::mem::swap(instance_batch, &mut old_batch);
        match old_batch {
            Texture2DBatch::Loaded { instances, mbo, cbo, uvto } => {
                *instance_batch = Texture2DBatch::Disposed { instances };
                Ok((mbo, cbo, uvto))
            },
            other => {
                *instance_batch = other;
                Err(LifecycleError::NotLoaded)
            },
        }
    }
}

impl RenderDevice {
    /// Records the GPU objects of uploaded mesh geometry in its render data:
    /// the vertex array, the position, index and texture-coordinate buffers,
    /// and the number of indices. A zero handle, or more indices than one draw
    /// takes, is refused and leaves the render data unchanged.
    pub fn init_mesh(
        &mut self,
        render_data: &mut RenderData,
        vao: u32,
        vbo: u32,
        ibo: u32,
        tbo: u32,
        index_len: usize,
    ) -> (r: Result<(), LifecycleError>)
        ensures
            vao == 0 || vbo == 0 || ibo == 0 || tbo == 0 ==> r == Err::<(), LifecycleError>(
                LifecycleError::NullHandle,
            ) && *final(render_data) == *old(render_data),
            !(vao == 0 || vbo == 0 || ibo == 0 || tbo == 0) && index_len > i32::MAX ==> r == Err::<
                (),
                LifecycleError,
            >(LifecycleError::BufferTooLarge) && *final(render_data) == *old(render_data),
            !(vao == 0 || vbo == 0 || ibo == 0 || tbo == 0) && index_len <= i32::MAX ==> r is Ok
                && *final(render_data) == (RenderData {
                vao,
                vbo,
                ibo,
                tbo,
                index_count: index_len as u32,
                ..*old(render_data)
            }),
            *final(self) == *old(self),
    {
        if vao == 0 || vbo == 0 || ibo == 0 || tbo == 0 {
            return Err(LifecycleError::NullHandle);
        }
        if index_len > i32::MAX as usize {
            return Err(LifecycleError::BufferTooLarge);
        }
        render_data.vao = vao;
        render_data.vbo = vbo;
        render_data.ibo = ibo;
        render_data.tbo = tbo;
        render_data.index_count = index_len as u32;
        Ok(())
    }

    /// What drawing a render target over the whole screen binds: its color
    /// texture and the framebuffer quad.
    pub fn draw_render_target(&self, render_target: &RenderTarget) -> (r: Result<
        (u32, RenderData),
        LifecycleError,
    >)
        ensures
            !render_target.is_resident() ==> r == Err::<(u32, RenderData), LifecycleError>(
                LifecycleError::NotLoaded,
            ),
            render_target.is_resident() ==> match self.shapes {
                Some(s) => r == Ok::<(u32, RenderData), LifecycleError>(
                    (render_target.texture_id, s.framebuffer_shape),
                ),
                None => r == Err::<(u32, RenderData), LifecycleError>(
                    LifecycleError::NotInitialized,
                ),
            },
    {
        if render_target.framebuffer_id == 0 || render_target.texture_id == 0
            || render_target.renderbuffer_id == 0 {
            return Err(LifecycleError::NotLoaded);
        }
        let shape = self.shape(BuiltinShape::Framebuffer)?;
        Ok((render_target.texture_id, shape))
    }

    /// Releases a font: its vertex array, its buffer and the textures of its
    /// glyphs (in character order) are returned for deletion, and the font
    /// is left with no glyphs and no GPU objects.
    pub fn dispose_font(&mut self, font: &mut Font) -> (r: (u32, u32, Vec<u32>))
        ensures
            r.0 == old(font).vao,
            r.1 == old(font).vbo,
            r.2@ == glyph_textures(old(font).characters@),
            final(font).wf(),
            final(font).vao == 0,
            final(font).vbo == 0,
            forall|c: char| #[trigger] final(font).glyph(c) is None,
            *final(self) == *old(self),
    {
        let mut textures: Vec<u32> = Vec::new();
        let mut i: usize = 0;
        while i < font.characters.len()
            invariant
                i <= font.characters@.len(),
                textures@ == glyph_textures(font.characters@.take(i as int)),
            decreases font.characters@.len() - i,
        {
            assert(font.characters@.take(i + 1).drop_last() =~= font.characters@.take(i as int));
            match font.characters[i] {
                Some(g) => textures.push(g.texture_id),
                None => {},
            }
            i = i + 1;
        }
        assert(font.characters@.take(font.characters@.len() as int) =~= font.characters@);
        let r = (font.vao, font.vbo, textures);
        *font = Font::new();
        r
    }
}

/// The texture handles of the glyphs present, in order.
pub open spec fn glyph_textures(s: Seq<Option<crate::font::Character>>) -> Seq<u32>
    decreases s.len(),
{
    if s.len() == 0 {
        Seq::empty()
    } else {
        match s.last() {
            Some(g) => glyph_textures(s.drop_last()).push(g.texture_id),
            None => glyph_textures(s.drop_last()),
        }
    }
}

/// The words of a fixed-size vector, in order.
fn words_of<const N: usize>(a: &[u32; N]) -> (r: Vec<u32>)
    ensures
        r@ == a@,
{
    let mut r: Vec<u32> = Vec::new();
    let mut i: usize = 0;
    while i < N
        invariant
            i <= N,
            r@ == a@.take(i as int),
        decreases N - i,
    {
        r.push(a[i]);
        assert(a@.take(i + 1) =~= a@.take(i as int).push(a@[i as int]));
        i = i + 1;
    }
    assert(a@.take(N as int) =~= a@);
    r
}

impl RenderDevice {
    /// Records the link of a program in its source state as the program
    /// object `program_id`. A failed link is refused with `LinkFailed` and
    /// leaves the program in its source state, as does a zero handle; a
    /// program in any other state is refused and left unchanged.
    pub fn build_shader_program(
        &mut self,
        shader_program: &mut ShaderProgram,
        program_id: u32,
        linked: bool,
    ) -> (r: Result<(), LifecycleError>)
        ensures
            old(shader_program).wf() ==> final(shader_program).wf(),
            *final(shader_program) == old(shader_program).after_build(program_id, linked),
            match old(shader_program).build_refusal(program_id, linked) {
                Some(e) => r == Err::<(), LifecycleError>(e),
                None => r is Ok,
            },
            *final(self) == *old(self),
    {
        match shader_program {
            ShaderProgram::PreBuild { .. } => {},
            ShaderProgram::Disposed => {
                return Err(LifecycleError::AlreadyDisposed);
            },
            _ => {
                return Err(LifecycleError::NotPreBuild);
            },
        }
        if program_id == 0 {
            return Err(LifecycleError::NullHandle);
        }
        if !linked {
            return Err(LifecycleError::LinkFailed);
        }
        *shader_program = ShaderProgram::Builded { program_id };
        Ok(())
    }

    /// Makes a built program the bound one and returns its handle. A program
    /// in another state is refused and the binding is left unchanged.
    pub fn bind_shader_program(&mut self, shader_program: &ShaderProgram) -> (r: Result<
        u32,
        LifecycleError,
    >)
        ensures
            final(self).viewport == old(self).viewport,
            final(self).shapes == old(self).shapes,
            match *shader_program {
                ShaderProgram::Builded { program_id } => r == Ok::<u32, LifecycleError>(program_id)
                    && final(self).shader_program == program_id,
                ShaderProgram::PreBuild { .. } => r == Err::<u32, LifecycleError>(
                    LifecycleError::NotBuilt,
                ) && final(self).shader_program == old(self).shader_program,
                ShaderProgram::Disposed => r == Err::<u32, LifecycleError>(
                    LifecycleError::AlreadyDisposed,
                ) && final(self).shader_program == old(self).shader_program,
            },
    {
        match shader_program {
            ShaderProgram::Builded { program_id } => {
                self.shader_program = *program_id;
                Ok(*program_id)
            },
            ShaderProgram::PreBuild { .. } => Err(LifecycleError::NotBuilt),
            ShaderProgram::Disposed => Err(LifecycleError::AlreadyDisposed),
        }
    }

    /// Leaves no program bound.
    pub fn unbind_shader_program(&mut self)
        ensures
            final(self).shader_program == 0,
            final(self).viewport == old(self).viewport,
            final(self).shapes == old(self).shapes,
    {
        self.shader_program = 0;
    }

    /// Disposes a program: a built one hands back its handle for deletion, one
    /// in its source state has none. Either becomes `Disposed`. Disposing a
    /// disposed program is refused.
    pub fn dispose_shader_program(&mut self, shader_program: &mut ShaderProgram) -> (r: Result<
        Option<u32>,
        LifecycleError,
    >)
        ensures
            match *old(shader_program) {
                ShaderProgram::Builded { program_id } => r == Ok::<Option<u32>, LifecycleError>(
                    Some(program_id),
                ) && *final(shader_program) is Disposed,
                ShaderProgram::PreBuild { .. } => r == Ok::<Option<u32>, LifecycleError>(None)
                    && *final(shader_program) is Disposed,
                ShaderProgram::Disposed => r == Err::<Option<u32>, LifecycleError>(
                    LifecycleError::AlreadyDisposed,
                ) && *final(shader_program) is Disposed,
            },
            match old(shader_program).dispose_refusal() {
                Some(e) => r == Err::<Option<u32>, LifecycleError>(e),
                None => r is Ok,
            },
            *final(self) == *old(self),
    {
        let r = match shader_program {
            ShaderProgram::Builded { program_id } => Ok(Some(*program_id)),
            ShaderProgram::PreBuild { .. } => Ok(None),
            ShaderProgram::Disposed => Err(LifecycleError::AlreadyDisposed),
        };
        *shader_program = ShaderProgram::Disposed;
        r
    }

    /// A render target of `width` by `height` pixels over the framebuffer,
    /// color texture and depth/stencil renderbuffer given. A zero handle or a
    /// framebuffer that failed its completeness check is refused.
    pub fn create_render_target(
        &mut self,
        width: u32,
        height: u32,
        framebuffer_id: u32,
        texture_id: u32,
        renderbuffer_id: u32,
        complete: bool,
    ) -> (r: Result<RenderTarget, LifecycleError>)
        ensures
            if framebuffer_id == 0 || texture_id == 0 || renderbuffer_id == 0 {
                r == Err::<RenderTarget, LifecycleError>(LifecycleError::NullHandle)
            } else if !complete {
                r == Err::<RenderTarget, LifecycleError>(LifecycleError::IncompleteTarget)
            } else {
                r == Ok::<RenderTarget, LifecycleError>(
                    RenderTarget {
                        size: UVec2 { x: width, y: height },
                        framebuffer_id,
                        texture_id,
                        renderbuffer_id,
                    },
                )
            },
            r matches Ok(t) ==> t.wf() && t.is_resident(),
            *final(self) == *old(self),
    {
        if framebuffer_id == 0 || texture_id == 0 || renderbuffer_id == 0 {
            return Err(LifecycleError::NullHandle);
        }
        if !complete {
            return Err(LifecycleError::IncompleteTarget);
        }
        Ok(
            RenderTarget {
                size: UVec2 { x: width, y: height },
                framebuffer_id,
                texture_id,
                renderbuffer_id,
            },
        )
    }

    /// Records a new size for a render target; its handles are kept, only
    /// their storage is reallocated.
    pub fn resize_render_target(&mut self, render_target: &mut RenderTarget, width: u32, height: u32)
        ensures
            *final(render_target) == (RenderTarget {
                size: UVec2 { x: width, y: height },
                ..*old(render_target)
            }),
            old(render_target).wf() ==> final(render_target).wf(),
            *final(self) == *old(self),
    {
        render_target.size = UVec2 { x: width, y: height };
    }

    /// Releases a render target's handles: they are returned for deletion and
    /// zeroed in place; the size is kept.
    pub fn dispose_render_target(&mut self, render_target: &mut RenderTarget) -> (r: RenderTarget)
        ensures
            r == *old(render_target),
            *final(render_target) == (RenderTarget {
                framebuffer_id: 0,
                texture_id: 0,
                renderbuffer_id: 0,
                ..*old(render_target)
            }),
            final(render_target).wf(),
            *final(self) == *old(self),
    {
        let r = *render_target;
        render_target.framebuffer_id = 0;
        render_target.texture_id = 0;
        render_target.renderbuffer_id = 0;
        r
    }
}

impl RenderDevice {
    /// What drawing the window at pixel `point` of size `size` of a resident
    /// texture binds: the texture, the window's coordinates on it, and the
    /// sprite quad.
    pub fn draw_sub_texture2d(&self, point: UVec2, size: UVec2, image_texture: &ImageTexture) -> (r:
        Result<TextureDraw, LifecycleError>)
        ensures
            match *image_texture {
                ImageTexture::Loaded { id, dimensions } => match self.shapes {
                    Some(s) => r matches Ok(d) && d.texture_id == id && d.shape == s.texture_shape
                        && d.uv.width == dimensions.x && d.uv.height == dimensions.y
                        && d.uv.coords@.map_values(|c: u64| c as int) == uv_numerators(point, size),
                    None => r == Err::<TextureDraw, LifecycleError>(LifecycleError::NotInitialized),
                },
                ImageTexture::Disposed => r == Err::<TextureDraw, LifecycleError>(
                    LifecycleError::AlreadyDisposed,
                ),
                _ => r == Err::<TextureDraw, LifecycleError>(LifecycleError::NotLoaded),
            },
    {
        let (id, dimensions) = match image_texture {
            ImageTexture::Loaded { id, dimensions } => (*id, *dimensions),
            ImageTexture::Disposed => {
                return Err(LifecycleError::AlreadyDisposed);
            },
            _ => {
                return Err(LifecycleError::NotLoaded);
            },
        };
        let shape = self.shape(BuiltinShape::Texture)?;
        let uv = generate_uv_coords(dimensions.x, dimensions.y, point, size);
        Ok(TextureDraw { texture_id: id, uv, shape })
    }

    /// What drawing a whole resident texture binds.
    pub fn draw_texture2d(&self, image_texture: &ImageTexture) -> (r: Result<
        TextureDraw,
        LifecycleError,
    >)
        ensures
            match *image_texture {
                ImageTexture::Loaded { id, dimensions } => match self.shapes {
                    Some(s) => r matches Ok(d) && d.texture_id == id && d.shape == s.texture_shape
                        && d.uv.width == dimensions.x && d.uv.height == dimensions.y
                        && d.uv.coords@.map_values(|c: u64| c as int) == uv_numerators(
                        UVec2 { x: 0, y: 0 },
                        dimensions,
                    ),
                    None => r == Err::<TextureDraw, LifecycleError>(LifecycleError::NotInitialized),
                },
                ImageTexture::Disposed => r == Err::<TextureDraw, LifecycleError>(
                    LifecycleError::AlreadyDisposed,
                ),
                _ => r == Err::<TextureDraw, LifecycleError>(LifecycleError::NotLoaded),
            },
    {
        let dimensions = match image_texture {
            ImageTexture::Loaded { dimensions, .. } => *dimensions,
            _ => UVec2 { x: 0, y: 0 },
        };
        self.draw_sub_texture2d(UVec2 { x: 0, y: 0 }, dimensions, image_texture)
    }

    /// What drawing the color texture of a render target binds: the whole
    /// texture on the sprite quad.
    pub fn draw_texture2drt(&self, render_target: &RenderTarget) -> (r: Result<
        TextureDraw,
        LifecycleError,
    >)
        ensures
            !render_target.is_resident() ==> r == Err::<TextureDraw, LifecycleError>(
                LifecycleError::NotLoaded,
            ),
            render_target.is_resident() ==> match self.shapes {
                Some(s) => r matches Ok(d) && d.texture_id == render_target.texture_id && d.shape
                    == s.texture_shape && d.uv.width == render_target.size.x && d.uv.height
                    == render_target.size.y && d.uv.coords@.map_values(|c: u64| c as int)
                    == uv_numerators(UVec2 { x: 0, y: 0 }, render_target.size),
                None => r == Err::<TextureDraw, LifecycleError>(LifecycleError::NotInitialized),
            },
    {
        if render_target.framebuffer_id == 0 || render_target.texture_id == 0
            || render_target.renderbuffer_id == 0 {
            return Err(LifecycleError::NotLoaded);
        }
        let shape = self.shape(BuiltinShape::Texture)?;
        let size = render_target.size;
        let uv = generate_uv_coords(size.x, size.y, UVec2 { x: 0, y: 0 }, size);
        Ok(TextureDraw { texture_id: render_target.texture_id, uv, shape })
    }

    /// What an instanced draw of a resident batch with a resident texture binds.
    pub fn draw_texture2d_batch(&self, image_texture: &ImageTexture, instance_batch: &Texture2DBatch) -> (r:
        Result<BatchDraw, LifecycleError>)
        requires
            instance_batch.wf(),
        ensures
            !(*image_texture is Loaded) ==> r == Err::<BatchDraw, LifecycleError>(
                if *image_texture is Disposed {
                    LifecycleError::AlreadyDisposed
                } else {
                    LifecycleError::NotLoaded
                },
            ),
            *image_texture is Loaded && !(*instance_batch is Loaded) ==> r == Err::<
                BatchDraw,
                LifecycleError,
            >(
                if *instance_batch is Disposed {
                    LifecycleError::AlreadyDisposed
                } else {
                    LifecycleError::NotLoaded
                },
            ),
            *image_texture is Loaded && *instance_batch is Loaded && self.shapes is None ==> r
                == Err::<BatchDraw, LifecycleError>(LifecycleError::NotInitialized),
            *image_texture is Loaded && *instance_batch is Loaded && self.shapes is Some ==> r
                == Ok::<BatchDraw, LifecycleError>(
                BatchDraw {
                    texture_id: image_texture->id,
                    shape: self.shapes->0.texture_batch_shape,
                    transforms: instance_batch->mbo,
                    colors: instance_batch->cbo,
                    uv_transforms: instance_batch->uvto,
                    instance_count: instance_batch.instances().len() as u32,
                },
            ),
    {
        let texture_id = match image_texture {
            ImageTexture::Loaded { id, .. } => *id,
            ImageTexture::Disposed => {
                return Err(LifecycleError::AlreadyDisposed);
            },
            _ => {
                return Err(LifecycleError::NotLoaded);
            },
        };
        match instance_batch {
            Texture2DBatch::Loaded { instances, mbo, cbo, uvto } => {
                let shape = self.shape(BuiltinShape::TextureBatch)?;
                Ok(
                    BatchDraw {
                        texture_id,
                        shape,
                        transforms: *mbo,
                        colors: *cbo,
                        uv_transforms: *uvto,
                        instance_count: instances.len() as u32,
                    },
                )
            },
            Texture2DBatch::Disposed { .. } => Err(LifecycleError::AlreadyDisposed),
            _ => Err(LifecycleError::NotLoaded),
        }
    }
}

} // verus!
