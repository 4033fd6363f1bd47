//! Texture images: decoding image-file bytes into 8-bit RGBA texels, and the
//! extent and row layout with which those texels are uploaded to the GPU.

use vstd::prelude::*;

verus! {

/// The error type of the `image` crate, carried through unchanged.
#[verifier::external_type_specification]
#[verifier::external_body]
pub struct ExImageError(image::ImageError);

/// What decoding image-file bytes gives: width, height and the 8-bit RGBA
/// texels in row-major order, or `None` when the bytes are not an image the
/// built-in decoders understand.
pub uninterp spec fn decoded_rgba8(bytes: Seq<u8>) -> Option<(u32, u32, Seq<u8>)>;

/// Decodes image-file bytes with the `image` crate: `image::guess_format`
/// picks the format from the file's leading magic bytes, and
/// `image::load_from_memory_with_format` decodes with that format's built-in
/// decoder; the image is then converted to 8-bit RGBA. Neither call consults
/// the crate's process-wide format hooks, so the outcome depends on the bytes
/// alone; where no hook is registered it is what `image::load_from_memory`
/// gives.
/// Trusted: the result is the named decoding of the bytes, and the pixel
/// buffer holds exactly four bytes per texel (the RGBA conversion builds a
/// buffer of `width * height * 4`). Which bytes form which image, and which
/// error comes back, is left to the decoders.
#[verifier::external_body]
fn load_rgba8_from_memory(bytes: &[u8]) -> (res: Result<(u32, u32, Vec<u8>), image::ImageError>)
    ensures
        match res {
            Ok((w, h, px)) => decoded_rgba8(bytes@) == Some((w, h, px@)) && px@.len() == 4 * w * h,
            Err(_) => decoded_rgba8(bytes@) is None,
        },
{
    match image::guess_format(bytes) {
        Ok(format) => match image::load_from_memory_with_format(bytes, format) {
            Ok(decoded) => {
                let rgba = decoded.to_rgba8();
                Ok((rgba.width(), rgba.height(), rgba.into_raw()))
            },
            Err(e) => Err(e),
        },
        Err(e) => Err(e),
    }
}

/// A decoded texture: `width` by `height` texels, four bytes (red, green,
/// blue, alpha) each, row by row.
pub struct TextureImage {
    pub width: u32,
    pub height: u32,
    pub rgba: Vec<u8>,
}

impl TextureImage {
    /// The texel buffer holds exactly the image's texels.
    pub open spec fn wf(&self) -> bool {
        self.rgba@.len() == 4 * self.width * self.height
    }
}

/// Why a texture could not be built.
pub enum TextureError {
    /// The bytes could not be decoded as an image.
    Decode(image::ImageError),
}

/// Decodes an image file held in memory into an RGBA texture image.
pub fn decode_texture_image(bytes: &[u8]) -> (res: Result<TextureImage, TextureError>)
    ensures
        match res {
            Ok(image) => {
                &&& decoded_rgba8(bytes@) == Some((image.width, image.height, image.rgba@))
                &&& image.wf()
            },
            Err(TextureError::Decode(_)) => decoded_rgba8(bytes@) is None,
        },
{
    match load_rgba8_from_memory(bytes) {
        Ok((width, height, rgba)) => Ok(TextureImage { width, height, rgba }),
        Err(e) => Err(TextureError::Decode(e)),
    }
}

/// Size of a texture: a plain 2D image is one layer deep.
#[derive(Clone, Copy, Debug, PartialEq, Eq, Structural)]
pub struct Extent3d {
    pub width: u32,
    pub height: u32,
    pub depth_or_array_layers: u32,
}

/// How texel bytes are arranged in the buffer handed to the GPU: where they
/// start, how many bytes one row of texels takes, and how many rows one
/// image has.
#[derive(Clone, Copy, Debug, PartialEq, Eq, Structural)]
pub struct TexelCopyBufferLayout {
    pub offset: u64,
    pub bytes_per_row: Option<u32>,
    pub rows_per_image: Option<u32>,
}

/// Extent of a single-layer texture of `width` by `height` texels.
pub fn texture_extent(width: u32, height: u32) -> (e: Extent3d)
    ensures
        e == (Extent3d { width, height, depth_or_array_layers: 1 }),
{
    Extent3d { width, height, depth_or_array_layers: 1 }
}

/// Layout of tightly packed RGBA8 texels, starting at the first byte: each
/// row takes four bytes per texel.
pub fn rgba8_copy_layout(width: u32, height: u32) -> (l: TexelCopyBufferLayout)
    requires
        4 * width <= u32::MAX,
    ensures
        l == (TexelCopyBufferLayout {
            offset: 0,
            bytes_per_row: Some((4 * width) as u32),
            rows_per_image: Some(height),
        }),
{
    TexelCopyBufferLayout { offset: 0, bytes_per_row: Some(4 * width), rows_per_image: Some(height) }
}

impl TextureImage {
    /// The extent and buffer layout with which this image is uploaded.
    pub fn upload_layout(&self) -> (r: (Extent3d, TexelCopyBufferLayout))
        requires
            4 * self.width <= u32::MAX,
        ensures
            r.0 == (Extent3d { width: self.width, height: self.height, depth_or_array_layers: 1 }),
            r.1 == (TexelCopyBufferLayout {
                offset: 0,
                bytes_per_row: Some((4 * self.width) as u32),
                rows_per_image: Some(self.height),
            }),
    {
        (texture_extent(self.width, self.height), rgba8_copy_layout(self.width, self.height))
    }
}

/// An upload of a decoded image reads exactly the texels the decoder
/// produced: the rows it copies make up the whole texel buffer.
pub proof fn lemma_upload_reads_exactly_the_texels(image: TextureImage, extent: Extent3d, layout: TexelCopyBufferLayout)
    requires
        image.wf(),
        4 * image.width <= u32::MAX,
        extent == (Extent3d { width: image.width, height: image.height, depth_or_array_layers: 1 }),
        layout == (TexelCopyBufferLayout {
            offset: 0,
            bytes_per_row: Some((4 * image.width) as u32),
            rows_per_image: Some(image.height),
        }),
    ensures
        layout.offset + layout.bytes_per_row.unwrap() * layout.rows_per_image.unwrap()
            * extent.depth_or_array_layers == image.rgba@.len(),
        layout.bytes_per_row.unwrap() == 4 * extent.width,
{
    assert(4 * image.width * image.height == (4 * image.width) * image.height) by (nonlinear_arith);
}

} // verus!
