use image::{ColorType, ImageFormat};
use vstd::prelude::*;

verus! {

/// Number of bytes that one pixel of the given color type occupies.
pub open spec fn spec_bytes_per_pixel(c: ColorType) -> nat {
    match c {
        ColorType::L8 => 1,
        ColorType::La8 => 2,
        ColorType::L16 => 2,
        ColorType::Rgb8 => 3,
        ColorType::Rgba8 => 4,
        ColorType::La16 => 4,
        ColorType::Rgb16 => 6,
        ColorType::Rgba16 => 8,
        ColorType::Rgb32F => 12,
        ColorType::Rgba32F => 16,
        // `ColorType` is non-exhaustive; the arms above cover every variant
        // of the version in use.
        _ => 0,
    }
}

/// Number of bytes that one pixel of the given color type occupies.
pub fn bytes_per_pixel(c: ColorType) -> (r: u8)
    ensures
        r as nat == spec_bytes_per_pixel(c),
{
    match c {
        ColorType::L8 => 1,
        ColorType::La8 => 2,
        ColorType::L16 => 2,
        ColorType::Rgb8 => 3,
        ColorType::Rgba8 => 4,
        ColorType::La16 => 4,
        ColorType::Rgb16 => 6,
        ColorType::Rgba16 => 8,
        ColorType::Rgb32F => 12,
        ColorType::Rgba32F => 16,
        _ => 0,
    }
}

/// Failures of the decode, embed and encode steps.
#[derive(Debug, PartialEq, Eq)]
pub enum StampError {
    /// No container format could be recognised in the input bytes.
    UnknownFormat,
    /// The codec rejected the input bitstream; carries the codec's message.
    Decode(String),
    /// The message does not fit in the image's raw pixel capacity.
    Capacity,
    /// The encoder rejected the pixel buffer; carries the codec's message.
    Encode(String),
}

/// Everything the pipeline reads of an image: its pixel bytes and metadata.
pub ghost struct ImageModel {
    pub pixels: Seq<u8>,
    pub width: u32,
    pub height: u32,
    pub color: ColorType,
    pub format: ImageFormat,
}

/// The number of pixel bytes that the metadata calls for.
pub open spec fn expected_len(width: u32, height: u32, color: ColorType) -> int {
    width as int * height as int * spec_bytes_per_pixel(color) as int
}

impl ImageModel {
    /// The buffer holds exactly one sample run per pixel.
    pub open spec fn wf(self) -> bool {
        self.pixels.len() == expected_len(self.width, self.height, self.color)
    }

    /// The offsets at which a message of `msg_len` bytes fits entirely in
    /// the buffer: `[0, pixels.len() - msg_len]`.
    pub open spec fn valid_offset(self, msg_len: int, at: int) -> bool {
        0 <= at && at + msg_len <= self.pixels.len()
    }

    /// The offsets from which a random one is drawn:
    /// `[0, pixels.len() - msg_len)`.
    pub open spec fn drawable_offset(self, msg_len: int, at: int) -> bool {
        0 <= at && at + msg_len < self.pixels.len()
    }

    /// The image with `msg` written over the bytes starting at `at`.
    pub open spec fn stamped(self, msg: Seq<u8>, at: int) -> ImageModel {
        ImageModel {
            pixels: self.pixels.subrange(0, at) + msg + self.pixels.subrange(
                at + msg.len(),
                self.pixels.len() as int,
            ),
            ..self
        }
    }
}

} // verus!
