//! The texture's pixels: an encoded image turned into rows of RGBA bytes.
//!
//! Decoding is the `image` crate's work. This module carries its result in a
//! type whose buffer is known to cover the stated dimensions, so that whoever
//! uploads it can read `width * height` pixels without looking further.

use vstd::prelude::*;

verus! {

/// Why the `image` crate could not decode some bytes. Carried, never read.
#[verifier::external_type_specification]
#[verifier::external_body]
pub struct ExImageError(image::ImageError);

/// A decoded image in whatever pixel format its file had. Carried, never read.
#[verifier::external_type_specification]
#[verifier::external_body]
pub struct ExDynamicImage(image::DynamicImage);

/// Bytes of one RGBA pixel.
pub const PIXEL_BYTES: usize = 4;

/// Bytes that an RGBA image of the given dimensions needs.
pub open spec fn rgba_len(width: u32, height: u32) -> nat {
    (PIXEL_BYTES * width * height) as nat
}

/// What a `Texture` stands for.
pub struct TextureView {
    pub width: u32,
    pub height: u32,
    pub pixels: Seq<u8>,
}

impl TextureView {
    /// The buffer holds at least one RGBA quadruple for each pixel.
    pub open spec fn covered(self) -> bool {
        rgba_len(self.width, self.height) <= self.pixels.len()
    }
}

/// Rows of RGBA bytes, top row first, with their dimensions.
#[derive(Debug)]
pub struct Texture {
    width: u32,
    height: u32,
    pixels: Vec<u8>,
}

/// Why no texture came out.
#[derive(Debug)]
pub enum TextureError {
    /// The bytes are not an image that the `image` crate can decode.
    Decode(image::ImageError),
    /// The buffer is too short for the dimensions.
    ShortBuffer,
}

impl View for Texture {
    type V = TextureView;

    closed spec fn view(&self) -> TextureView {
        TextureView { width: self.width, height: self.height, pixels: self.pixels@ }
    }
}

impl Texture {
    #[verifier::type_invariant]
    spec fn inv(&self) -> bool {
        self@.covered()
    }

    /// Wraps a buffer of RGBA bytes, if it covers `width * height` pixels.
    pub fn new(width: u32, height: u32, pixels: Vec<u8>) -> (r: Result<Texture, TextureError>)
        ensures
            match r {
                Ok(t) => rgba_len(width, height) <= pixels@.len() && t@ == (TextureView {
                    width,
                    height,
                    pixels: pixels@,
                }),
                Err(e) => rgba_len(width, height) > pixels@.len() && e is ShortBuffer,
            },
    {
        let w: u128 = width as u128;
        let h: u128 = height as u128;
        assert(w * h <= 0xffff_ffff * 0xffff_ffff) by (nonlinear_arith)
            requires
                0 <= w <= 0xffff_ffff,
                0 <= h <= 0xffff_ffff,
        ;
        let need: u128 = 4 * (w * h);
        assert(need == rgba_len(width, height)) by (nonlinear_arith)
            requires
                need == 4 * (w * h),
                w == width,
                h == height,
                rgba_len(width, height) == 4 * width * height,
        ;
        if need <= pixels.len() as u128 {
            Ok(Texture { width, height, pixels })
        } else {
            Err(TextureError::ShortBuffer)
        }
    }

    /// Pixels per row.
    pub fn width(&self) -> (w: u32)
        ensures
            w == self@.width,
    {
        self.width
    }

    /// Rows.
    pub fn height(&self) -> (h: u32)
        ensures
            h == self@.height,
    {
        self.height
    }

    /// The RGBA bytes, four per pixel, rows from the top.
    pub fn pixels(&self) -> (p: &[u8])
        ensures
            p@ == self@.pixels,
            self@.covered(),
    {
        proof {
            use_type_invariant(self);
        }
        self.pixels.as_slice()
    }

    /// Gives the buffer up, with the dimensions it covers.
    pub fn into_parts(self) -> (parts: (u32, u32, Vec<u8>))
        ensures
            parts.0 == self@.width,
            parts.1 == self@.height,
            parts.2@ == self@.pixels,
            self@.covered(),
    {
        proof {
            use_type_invariant(&self);
        }
        (self.width, self.height, self.pixels)
    }
}

/// Calls `image::load_from_memory`, which guesses the format from the first
/// bytes and decodes the whole image. Nothing is claimed about which bytes
/// decode, nor to what: besides the bytes, the outcome depends on the format
/// hooks registered with the `image` crate in the running process.
#[verifier::external_body]
fn load_image(bytes: &[u8]) -> Result<image::DynamicImage, image::ImageError> {
    image::load_from_memory(bytes)
}

/// Calls `image::DynamicImage::to_rgba8` and takes the resulting buffer apart
/// into width, height and bytes. The claim is the `image` crate's own
/// invariant on its buffers: one can only be built over a container that
/// holds width * height pixels, here of four bytes each.
#[verifier::external_body]
fn rgba8_parts(decoded: &image::DynamicImage) -> (parts: (u32, u32, Vec<u8>))
    ensures
        rgba_len(parts.0, parts.1) <= parts.2@.len(),
{
    let rgba = decoded.to_rgba8();
    let (width, height) = rgba.dimensions();
    (width, height, rgba.into_raw())
}

/// Decodes an encoded image (PNG, JPEG, ...) into an RGBA texture.
///
/// Whether the bytes decode is up to the decoder. When they do, the texture
/// covers its dimensions; when they do not, the decoder's error is handed on.
pub fn decode_texture(bytes: &[u8]) -> (r: Result<Texture, TextureError>)
    ensures
        r matches Ok(t) ==> t@.covered(),
        r matches Err(e) ==> e is Decode,
{
    match load_image(bytes) {
        Ok(decoded) => {
            let (width, height, pixels) = rgba8_parts(&decoded);
            Texture::new(width, height, pixels)
        },
        Err(e) => Err(TextureError::Decode(e)),
    }
}

} // verus!
