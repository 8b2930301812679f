//! Decoding image files into rows of RGBA pixels.

use vstd::prelude::*;

verus! {

/// The file format of an image, as the `image` crate names it. The library
/// hands it on and never looks into it.
#[verifier::external_type_specification]
#[verifier::external_body]
pub struct ExImageFormat(image::ImageFormat);

/// A decoded image: its width, its height, and its pixels row after row,
/// four bytes to a pixel in the order red, green, blue, alpha.
#[derive(Debug, PartialEq, Eq)]
pub struct DecodedImage {
    pub width: u32,
    pub height: u32,
    pub pixels: Vec<u8>,
}

impl DecodedImage {
    /// Whether there are exactly four bytes for each pixel.
    pub open spec fn is_whole(&self) -> bool {
        self.pixels@.len() == 4 * self.width * self.height
    }
}

/// Decodes an image file with `image::load_from_memory_with_format` and
/// converts what comes out with `DynamicImage::into_rgba8`. A failure of the
/// decoder, whatever its reason, is `None`; so is a file whose decoded data
/// would exceed the decoder's default limit of 512 MiB.
///
/// Which pixels come out is not stated, nor that the same bytes give the
/// same pixels everywhere: some decoders choose their arithmetic by the
/// processor they run on. The contract claims only that an image that comes
/// out holds four bytes for each of its pixels, which is the length that
/// the conversion allocates.
#[verifier::external_body]
pub(crate) fn decode_rgba8(bytes: &[u8], format: image::ImageFormat) -> (decoded: Option<
    DecodedImage,
>)
    ensures
        decoded matches Some(image) ==> image.is_whole(),
{
    match image::load_from_memory_with_format(bytes, format) {
        Ok(image) => {
            let rgba = image.into_rgba8();
            let (width, height) = (rgba.width(), rgba.height());
            Some(DecodedImage { width, height, pixels: rgba.into_raw() })
        },
        Err(_) => None,
    }
}

/// The image that the bytes of a file in the given format decode to, or
/// nothing where they do not decode. Nothing of the backend is touched, so a
/// caller can decode before a texture object is created.
pub fn decode(bytes: &[u8], format: image::ImageFormat) -> (decoded: Option<DecodedImage>)
    ensures
        decoded matches Some(image) ==> image.is_whole(),
{
    decode_rgba8(bytes, format)
}

} // verus!
