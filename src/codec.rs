//! The calls into the image codec library and the random source that the
//! pipeline relies on, with what it assumes of each.
use crate::model::expected_len;
use image::{ColorType, ImageEncoder, ImageFormat, ImageResult};
use vstd::prelude::*;

verus! {

#[verifier::external_type_specification]
pub struct ExColorType(image::ColorType);

#[verifier::external_type_specification]
pub struct ExImageFormat(image::ImageFormat);

#[verifier::external_type_specification]
#[verifier::external_body]
pub struct ExImageError(image::ImageError);

/// The container format that `image::guess_format` reads from the leading
/// magic bytes of a stream, if any.
pub uninterp spec fn guessed_format(bytes: Seq<u8>) -> Option<ImageFormat>;

/// Whether the codec of `format` accepts `bytes` as an image.
pub uninterp spec fn decodes(bytes: Seq<u8>, format: ImageFormat) -> bool;

/// What the codec of `format` decodes `bytes` to: the raw pixel bytes,
/// width, height and color type.
pub uninterp spec fn decoded(bytes: Seq<u8>, format: ImageFormat) -> (Seq<u8>, u32, u32, ColorType);

/// The PNG byte stream for a pixel buffer, or `None` where the encoder
/// rejects it.
pub uninterp spec fn png_encoding(pixels: Seq<u8>, width: u32, height: u32, color: ColorType)
    -> Option<Seq<u8>>;

/// The JPEG byte stream (default quality) for a pixel buffer, or `None`
/// where the encoder rejects it.
pub uninterp spec fn jpeg_encoding(pixels: Seq<u8>, width: u32, height: u32, color: ColorType)
    -> Option<Seq<u8>>;

/// Relies on `image::guess_format`: it matches the stream's prefix against a
/// fixed table of magic numbers and fails where none matches.
pub assume_specification[ image::guess_format ](buffer: &[u8]) -> (r: ImageResult<ImageFormat>)
    ensures
        r is Ok <==> guessed_format(buffer@) is Some,
        r is Ok ==> guessed_format(buffer@) == Some(r->Ok_0),
;

/// Relies on `image::load_from_memory_with_format`, then
/// `DynamicImage::width`, `height`, `color` and `into_bytes`: decoding
/// depends on the bytes and the format alone, and the decoded buffer is
/// allocated at `width * height * bytes_per_pixel` and handed out as it is.
#[verifier::external_body]
pub(crate) fn decode(bytes: &[u8], format: ImageFormat) -> (r: ImageResult<
    (Vec<u8>, u32, u32, ColorType),
>)
    ensures
        r is Ok <==> decodes(bytes@, format),
        r matches Ok((p, w, h, c)) ==> decoded(bytes@, format) == (p@, w, h, c) && p@.len()
            == expected_len(w, h, c),
{
    let img = image::load_from_memory_with_format(bytes, format)?;
    let (width, height, color) = (img.width(), img.height(), img.color());
    Ok((img.into_bytes(), width, height, color))
}

/// Relies on `PngEncoder::write_image` into a `Vec`: the result depends on
/// the arguments alone. It panics unless the buffer length matches the
/// dimensions, hence the `requires`.
#[verifier::external_body]
pub(crate) fn encode_png(pixels: &[u8], width: u32, height: u32, color: ColorType) -> (r:
    ImageResult<Vec<u8>>)
    requires
        pixels@.len() == expected_len(width, height, color),
    ensures
        r is Ok <==> png_encoding(pixels@, width, height, color) is Some,
        r is Ok ==> png_encoding(pixels@, width, height, color) == Some(r->Ok_0@),
{
    let mut out: Vec<u8> = Vec::new();
    image::codecs::png::PngEncoder::new(&mut out).write_image(pixels, width, height, color)?;
    Ok(out)
}

/// Relies on `JpegEncoder::write_image` into a `Vec`: the result depends on
/// the arguments alone. It panics unless the buffer length matches the
/// dimensions, hence the `requires`.
#[verifier::external_body]
pub(crate) fn encode_jpeg(pixels: &[u8], width: u32, height: u32, color: ColorType) -> (r:
    ImageResult<Vec<u8>>)
    requires
        pixels@.len() == expected_len(width, height, color),
    ensures
        r is Ok <==> jpeg_encoding(pixels@, width, height, color) is Some,
        r is Ok ==> jpeg_encoding(pixels@, width, height, color) == Some(r->Ok_0@),
{
    let mut out: Vec<u8> = Vec::new();
    image::codecs::jpeg::JpegEncoder::new(&mut out).write_image(pixels, width, height, color)?;
    Ok(out)
}

/// Relies on `rand::Rng::gen_range` over `rand::thread_rng`: a value drawn
/// from `[0, n)`. It panics on an empty range, hence `n > 0`.
#[verifier::external_body]
pub(crate) fn draw_below(n: usize) -> (r: usize)
    requires
        n > 0,
    ensures
        r < n,
{
    rand::Rng::gen_range(&mut rand::thread_rng(), 0..n)
}

} // verus!
