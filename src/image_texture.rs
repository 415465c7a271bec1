use vstd::prelude::*;
use crate::geometry::UVec2;
use crate::error::LifecycleError;

verus! {

/// OpenGL's `GL_RGBA` pixel format.
pub const GL_RGBA: u32 = 0x1908;

/// OpenGL's `GL_RGB` pixel format.
pub const GL_RGB: u32 = 0x1907;

/// The channel layout of decoded pixel data.
#[derive(Clone, Copy, Debug, PartialEq, Eq, Structural)]
pub enum ColorMode {
    RGBA,
    RGB,
}

impl ColorMode {
    /// Bytes per pixel.
    pub open spec fn channels(self) -> nat {
        match self {
            ColorMode::RGBA => 4,
            ColorMode::RGB => 3,
        }
    }

    /// The graphics API's format constant for this layout.
    pub open spec fn gl_format(self) -> u32 {
        match self {
            ColorMode::RGBA => GL_RGBA,
            ColorMode::RGB => GL_RGB,
        }
    }

    pub fn channel_count(self) -> (r: usize)
        ensures
            r == self.channels(),
    {
        match self {
            ColorMode::RGBA => 4,
            ColorMode::RGB => 3,
        }
    }

    /// The layout with `depth` bytes per pixel, if there is one.
    pub fn from_channel_count(depth: usize) -> (r: Option<ColorMode>)
        ensures
            depth == 4 ==> r == Some(ColorMode::RGBA),
            depth == 3 ==> r == Some(ColorMode::RGB),
            depth != 3 && depth != 4 ==> r is None,
    {
        if depth == 4 {
            Some(ColorMode::RGBA)
        } else if depth == 3 {
            Some(ColorMode::RGB)
        } else {
            None
        }
    }

    pub fn as_i32(self) -> (r: i32)
        ensures
            r as u32 == self.gl_format(),
    {
        self.as_u32() as i32
    }

    pub fn as_glint(self) -> (r: i32)
        ensures
            r as u32 == self.gl_format(),
    {
        self.as_i32()
    }

    pub fn as_u32(self) -> (r: u32)
        ensures
            r == self.gl_format(),
    {
        match self {
            ColorMode::RGBA => GL_RGBA,
            ColorMode::RGB => GL_RGB,
        }
    }
}

impl Default for ColorMode {
    fn default() -> (r: ColorMode)
        ensures
            r == ColorMode::RGBA,
    {
        ColorMode::RGBA
    }
}

/// The number of bytes that pixel data of the given size and layout holds.
pub open spec fn pixel_bytes(dimensions: UVec2, mode: ColorMode) -> nat {
    dimensions.x as nat * dimensions.y as nat * mode.channels()
}

/// Pixel data as a decoder hands it over.
#[derive(Clone, Debug)]
pub struct DecodedImage {
    pub width: usize,
    pub height: usize,
    /// Bytes per pixel.
    pub depth: usize,
    pub data: Vec<u8>,
}

/// Whether decoded pixel data is usable as texture data: its size fits the
/// texture dimensions, its channel count is supported, and the buffer holds
/// exactly one value per channel and pixel.
pub open spec fn decoded_usable(d: DecodedImage) -> bool {
    &&& d.width <= u32::MAX
    &&& d.height <= u32::MAX
    &&& (d.depth == 3 || d.depth == 4)
    &&& d.data@.len() == d.width as nat * d.height as nat * d.depth as nat
}

/// Relies on `stb_image::image::load_from_memory`: it decodes an encoded
/// image into pixels, 8-bit ones holding one byte per channel and pixel. A
/// failed decode and a high-dynamic-range image give no 8-bit pixels. The
/// outcome also depends on the thread's vertical-flip setting.
#[verifier::external_body]
fn decode_image(bytes: &[u8]) -> (r: Option<DecodedImage>)
    requires
        bytes@.len() <= i32::MAX,
    ensures
        r matches Some(d) ==> d.data@.len() == d.width as nat * d.height as nat * d.depth as nat,
{
    match stb_image::image::load_from_memory(bytes) {
        stb_image::image::LoadResult::ImageU8(image) => Some(
            DecodedImage {
                width: image.width,
                height: image.height,
                depth: image.depth,
                data: image.data,
            },
        ),
        stb_image::image::LoadResult::ImageF32(_) => None,
        stb_image::image::LoadResult::Error(_) => None,
    }
}

/// Bytes released from a texture on upload, for the caller to hand to the GPU.
#[derive(Clone, Debug)]
pub struct PixelUpload {
    pub dimensions: UVec2,
    pub mode: ColorMode,
    pub data: Vec<u8>,
}

/// An image texture: decoded pixels before upload, a GPU texture after it,
/// or one of the two terminal states.
#[derive(Clone, Debug)]
pub enum ImageTexture {
    PreLoad { path: String, dimensions: UVec2, data: Vec<u8>, mode: ColorMode },
    Loaded { id: u32, dimensions: UVec2 },
    Corrupted,
    Disposed,
}

impl ImageTexture {
    /// A pre-upload texture holds exactly its pixels; a resident one a live handle.
    pub open spec fn wf(&self) -> bool {
        match self {
            ImageTexture::PreLoad { dimensions, data, mode, .. } => data@.len() == pixel_bytes(
                *dimensions,
                *mode,
            ),
            ImageTexture::Loaded { id, .. } => *id != 0,
            _ => true,
        }
    }

    /// The state that uploading into the texture object `id` leads to.
    pub open spec fn after_load(self, id: u32) -> ImageTexture {
        match self {
            ImageTexture::PreLoad { dimensions, .. } => if id != 0 {
                ImageTexture::Loaded { id, dimensions }
            } else {
                self
            },
            _ => self,
        }
    }

    /// The refusal, if any, that uploading into `id` meets.
    pub open spec fn load_refusal(self, id: u32) -> Option<LifecycleError> {
        if !(self is PreLoad) {
            Some(LifecycleError::NotPreLoad)
        } else if id == 0 {
            Some(LifecycleError::NullHandle)
        } else {
            None
        }
    }

    /// The state that disposal leads to.
    pub open spec fn after_dispose(self) -> ImageTexture {
        match self {
            ImageTexture::Loaded { .. } => ImageTexture::Disposed,
            _ => self,
        }
    }

    /// The refusal, if any, that disposal meets.
    pub open spec fn dispose_refusal(self) -> Option<LifecycleError> {
        match self {
            ImageTexture::Loaded { .. } => None,
            ImageTexture::Disposed => Some(LifecycleError::AlreadyDisposed),
            _ => Some(LifecycleError::NotLoaded),
        }
    }

    /// Wraps raw RGBA pixel data of the given size. Data whose length does not
    /// match the size gives `Corrupted`.
    pub fn load_from_data(data: Vec<u8>, dimensions: UVec2) -> (r: ImageTexture)
        ensures
            r.wf(),
            data@.len() == pixel_bytes(dimensions, ColorMode::RGBA) ==> (r matches
                ImageTexture::PreLoad { path, dimensions: d, data: bytes, mode }
                && path@.len() == 0 && d == dimensions && bytes@ == data@
                && mode == ColorMode::RGBA),
            data@.len() != pixel_bytes(dimensions, ColorMode::RGBA) ==> r is Corrupted,
    {
        assert((dimensions.x as int) * (dimensions.y as int) * 4 <= 0xFFFF_FFFF * 0xFFFF_FFFF * 4)
            by (nonlinear_arith)
            requires
                dimensions.x <= 0xFFFF_FFFF,
                dimensions.y <= 0xFFFF_FFFF,
        ;
        let expected: u128 = (dimensions.x as u128) * (dimensions.y as u128) * 4;
        if data.len() as u128 == expected {
            ImageTexture::PreLoad {
                path: String::new(),
                dimensions,
                data,
                mode: ColorMode::RGBA,
            }
        } else {
            ImageTexture::Corrupted
        }
    }

    /// The texture that a decoder's outcome for `path` gives: `Corrupted` when
    /// decoding failed or the pixels are not usable, else the pixels before upload.
    pub fn from_decoded(path: String, decoded: Option<DecodedImage>) -> (r: ImageTexture)
        ensures
            r.wf(),
            match decoded {
                Some(d) => if decoded_usable(d) {
                    r matches ImageTexture::PreLoad { path: p, dimensions, data, mode }
                        && p@ == path@ && dimensions == UVec2 { x: d.width as u32, y: d.height as u32 }
                        && data@ == d.data@ && mode.channels() == d.depth
                } else {
                    r is Corrupted
                },
                None => r is Corrupted,
            },
    {
        match decoded {
            None => ImageTexture::Corrupted,
            Some(d) => {
                let mode = match ColorMode::from_channel_count(d.depth) {
                    Some(m) => m,
                    None => {
                        return ImageTexture::Corrupted;
                    },
                };
                if d.width > u32::MAX as usize || d.height > u32::MAX as usize {
                    return ImageTexture::Corrupted;
                }
                assert((d.width as int) * (d.height as int) * (d.depth as int) <= 0xFFFF_FFFF
                    * 0xFFFF_FFFF * 4) by (nonlinear_arith)
                    requires
                        d.width <= 0xFFFF_FFFF,
                        d.height <= 0xFFFF_FFFF,
                        d.depth <= 4,
                ;
                assert((d.width as int) * (d.height as int) <= 0xFFFF_FFFF * 0xFFFF_FFFF)
                    by (nonlinear_arith)
                    requires
                        d.width <= 0xFFFF_FFFF,
                        d.height <= 0xFFFF_FFFF,
                ;
                let expected: u128 = (d.width as u128) * (d.height as u128) * (d.depth as u128);
                if d.data.len() as u128 != expected {
                    return ImageTexture::Corrupted;
                }
                let dimensions = UVec2 { x: d.width as u32, y: d.height as u32 };
                ImageTexture::PreLoad { path, dimensions, data: d.data, mode }
            },
        }
    }

    /// Decodes an encoded image held in memory. Input the decoder cannot
    /// take, a failed decode and unusable pixels give `Corrupted`; decoded
    /// pixels give the texture before upload, named `path`.
    pub fn load_from_memory(path: String, bytes: &[u8]) -> (r: ImageTexture)
        ensures
            r.wf(),
            r is PreLoad || r is Corrupted,
            bytes@.len() > i32::MAX ==> r is Corrupted,
            r matches ImageTexture::PreLoad { path: p, .. } ==> p@ == path@,
    {
        if bytes.len() > i32::MAX as usize {
            return ImageTexture::Corrupted;
        }
        let decoded = decode_image(bytes);
        ImageTexture::from_decoded(path, decoded)
    }

    pub fn is_preload(&self) -> (r: bool)
        ensures
            r == (*self is PreLoad),
    {
        matches!(self, ImageTexture::PreLoad { .. })
    }

    pub fn is_loaded(&self) -> (r: bool)
        ensures
            r == (*self is Loaded),
    {
        matches!(self, ImageTexture::Loaded { .. })
    }

    /// The handle of a resident texture, for binding it to a draw.
    pub fn loaded_id(&self) -> (r: Result<u32, LifecycleError>)
        ensures
            match *self {
                ImageTexture::Loaded { id, .. } => r == Ok::<u32, LifecycleError>(id),
                ImageTexture::Disposed => r == Err::<u32, LifecycleError>(
                    LifecycleError::AlreadyDisposed,
                ),
                _ => r == Err::<u32, LifecycleError>(LifecycleError::NotLoaded),
            },
    {
        match self {
            ImageTexture::Loaded { id, .. } => Ok(*id),
            ImageTexture::Disposed => Err(LifecycleError::AlreadyDisposed),
            _ => Err(LifecycleError::NotLoaded),
        }
    }

    /// The pixel size of a texture that still has one.
    pub open spec fn dimensions_spec(&self) -> Option<UVec2> {
        match *self {
            ImageTexture::PreLoad { dimensions, .. } => Some(dimensions),
            ImageTexture::Loaded { dimensions, .. } => Some(dimensions),
            _ => None,
        }
    }

    /// The pixel size of a texture that still has one.
    pub fn dimensions(&self) -> (r: Option<UVec2>)
        ensures
            r == self.dimensions_spec(),
    {
        match self {
            ImageTexture::PreLoad { dimensions, .. } => Some(*dimensions),
            ImageTexture::Loaded { dimensions, .. } => Some(*dimensions),
            _ => None,
        }
    }
}

} // verus!
