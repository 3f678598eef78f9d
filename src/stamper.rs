//! Decoding into a pixel buffer, stamping a message into it, and choosing
//! the encoder for the result.
use crate::codec::{
    decode, decoded, decodes, draw_below, encode_jpeg, encode_png, guessed_format, jpeg_encoding,
    png_encoding,
};
use crate::model::{bytes_per_pixel, expected_len, ImageModel, StampError};
use image::{ColorType, ImageFormat};
use vstd::prelude::*;
use vstd::string::StringExecFns;

verus! {

/// Whether `width * height * bytes_per_pixel(color)` equals `len`, computed
/// without overflow.
fn matches_dimensions(len: usize, width: u32, height: u32, color: ColorType) -> (r: bool)
    ensures
        r == (len as int == expected_len(width, height, color)),
{
    let bpp: u8 = bytes_per_pixel(color);
    assert(width as int * height as int <= 0xffff_ffff * 0xffff_ffff) by (nonlinear_arith)
        requires
            width <= 0xffff_ffffu32,
            height <= 0xffff_ffffu32,
    ;
    let area: u64 = (width as u64) * (height as u64);
    match area.checked_mul(bpp as u64) {
        Some(total) => total == len as u64,
        None => {
            assert(expected_len(width, height, color) > u64::MAX);
            false
        },
    }
}

/// A decoded image, ready to be stamped: its raw pixel bytes and the
/// metadata needed to encode it again.
pub struct Stamper {
    pixels: Vec<u8>,
    width: u32,
    height: u32,
    color: ColorType,
    format: ImageFormat,
}

impl View for Stamper {
    type V = ImageModel;

    closed spec fn view(&self) -> ImageModel {
        ImageModel {
            pixels: self.pixels@,
            width: self.width,
            height: self.height,
            color: self.color,
            format: self.format,
        }
    }
}

impl Stamper {
    #[verifier::type_invariant]
    spec fn inv(self) -> bool {
        self@.wf()
    }

    /// Builds an image from its parts; `None` unless the buffer holds
    /// exactly `width * height` pixels of `color`.
    pub fn from_pixels(
        pixels: Vec<u8>,
        width: u32,
        height: u32,
        color: ColorType,
        format: ImageFormat,
    ) -> (r: Option<Stamper>)
        ensures
            r is Some <==> pixels@.len() == expected_len(width, height, color),
            r is Some ==> r->Some_0@ == (ImageModel { pixels: pixels@, width, height, color, format }),
    {
        if matches_dimensions(pixels.len(), width, height, color) {
            Some(Stamper { pixels, width, height, color, format })
        } else {
            None
        }
    }

    /// Decodes an encoded image, detecting its container format from the
    /// leading bytes of the stream.
    pub fn new(bytes: &[u8]) -> (r: Result<Stamper, StampError>)
        ensures
            guessed_format(bytes@) is None ==> r == Err::<Stamper, StampError>(
                StampError::UnknownFormat,
            ),
            guessed_format(bytes@) matches Some(f) && !decodes(bytes@, f) ==> r is Err
                && r->Err_0 is Decode,
            loads(bytes@) ==> r is Ok && r->Ok_0@ == loaded_model(bytes@),
            r is Ok ==> r->Ok_0@.wf(),
    {
        let format = match image::guess_format(bytes) {
            Ok(f) => f,
            Err(_) => return Err(StampError::UnknownFormat),
        };
        match decode(bytes, format) {
            Ok((pixels, width, height, color)) => Ok(Stamper { pixels, width, height, color, format }),
            Err(e) => Err(StampError::Decode(e.to_string())),
        }
    }

    /// Number of raw pixel bytes.
    pub fn len(&self) -> (r: usize)
        ensures
            r == self@.pixels.len(),
    {
        self.pixels.len()
    }

    pub fn width(&self) -> (r: u32)
        ensures
            r == self@.width,
    {
        self.width
    }

    pub fn height(&self) -> (r: u32)
        ensures
            r == self@.height,
    {
        self.height
    }

    pub fn color(&self) -> (r: ColorType)
        ensures
            r == self@.color,
    {
        self.color
    }

    pub fn format(&self) -> (r: ImageFormat)
        ensures
            r == self@.format,
    {
        self.format
    }

    pub fn pixels(&self) -> (r: &[u8])
        ensures
            r@ == self@.pixels,
    {
        self.pixels.as_slice()
    }

    /// Writes `msg` over the pixel bytes starting at `at`; no other byte
    /// changes. Fails with `Capacity` unless `at` lies in
    /// `[0, len - msg.len()]`, where the message fits entirely.
    pub fn stamp(self, msg: &[u8], at: usize) -> (r: Result<StampedImage, StampError>)
        ensures
            r is Ok <==> self@.valid_offset(msg@.len() as int, at as int),
            r is Ok ==> r->Ok_0@ == self@.stamped(msg@, at as int),
            r is Err ==> r->Err_0 == StampError::Capacity,
    {
        proof {
            use_type_invariant(&self);
        }
        if msg.len() > self.pixels.len() || at > self.pixels.len() - msg.len() {
            return Err(StampError::Capacity);
        }
        let ghost before = self@;
        let Stamper { mut pixels, width, height, color, format } = self;
        let ghost old_pixels = pixels@;
        let mut i: usize = 0;
        while i < msg.len()
            invariant
                i <= msg@.len(),
                at + msg@.len() <= old_pixels.len() <= usize::MAX,
                pixels@.len() == old_pixels.len(),
                forall|j: int|
                    0 <= j < at || at + i <= j < pixels@.len() ==> pixels@[j] == old_pixels[j],
                forall|j: int| 0 <= j < i ==> pixels@[at + j] == msg@[j],
            decreases msg@.len() - i,
        {
            pixels[at + i] = msg[i];
            i += 1;
        }
        let ghost expected = before.stamped(msg@, at as int).pixels;
        assert forall|k: int| 0 <= k < pixels@.len() implies pixels@[k] == expected[k] by {
            if at <= k < at + msg@.len() {
                assert(pixels@[at + (k - at)] == msg@[k - at]);
            }
        }
        assert(pixels@ =~= expected);
        Ok(StampedImage { pixels, width, height, color, format })
    }

    /// Stamps `msg` at an offset drawn at random from `[0, len - msg.len())`.
    /// Fails with `Capacity` when the message is not shorter than the
    /// pixel buffer.
    pub fn embed(self, msg: &[u8]) -> (r: Result<StampedImage, StampError>)
        ensures
            r is Err <==> msg@.len() >= self@.pixels.len(),
            r is Err ==> r->Err_0 == StampError::Capacity,
            r is Ok ==> r->Ok_0@.pixels.len() == self@.pixels.len(),
            r is Ok ==> exists|at: int|
                self@.drawable_offset(msg@.len() as int, at) && r->Ok_0@ == #[trigger] self@.stamped(
                    msg@,
                    at,
                ),
    {
        if msg.len() >= self.pixels.len() {
            return Err(StampError::Capacity);
        }
        let at: usize = draw_below(self.pixels.len() - msg.len());
        self.stamp(msg, at)
    }
}

/// An image whose pixel bytes carry a stamped message.
pub struct StampedImage {
    pixels: Vec<u8>,
    width: u32,
    height: u32,
    color: ColorType,
    format: ImageFormat,
}

impl View for StampedImage {
    type V = ImageModel;

    closed spec fn view(&self) -> ImageModel {
        ImageModel {
            pixels: self.pixels@,
            width: self.width,
            height: self.height,
            color: self.color,
            format: self.format,
        }
    }
}

/// The bytes that the writer produces for an image: PNG for a PNG source,
/// JPEG for every other format.
pub open spec fn encoded(m: ImageModel) -> Option<Seq<u8>> {
    if m.format == ImageFormat::Png {
        png_encoding(m.pixels, m.width, m.height, m.color)
    } else {
        jpeg_encoding(m.pixels, m.width, m.height, m.color)
    }
}

impl StampedImage {
    #[verifier::type_invariant]
    spec fn inv(self) -> bool {
        self@.wf()
    }

    /// Encodes the pixel buffer with the PNG encoder where the source was
    /// PNG, and with the JPEG encoder otherwise.
    pub fn encode(&self) -> (r: Result<Vec<u8>, StampError>)
        ensures
            r is Ok <==> encoded(self@) is Some,
            r is Ok ==> encoded(self@) == Some(r->Ok_0@),
            r is Err ==> r->Err_0 is Encode,
    {
        proof {
            use_type_invariant(self);
        }
        let res = match self.format {
            ImageFormat::Png => encode_png(self.pixels.as_slice(), self.width, self.height, self.color),
            _ => encode_jpeg(self.pixels.as_slice(), self.width, self.height, self.color),
        };
        match res {
            Ok(bytes) => Ok(bytes),
            Err(e) => Err(StampError::Encode(e.to_string())),
        }
    }

    /// Number of raw pixel bytes.
    pub fn len(&self) -> (r: usize)
        ensures
            r == self@.pixels.len(),
    {
        self.pixels.len()
    }

    pub fn width(&self) -> (r: u32)
        ensures
            r == self@.width,
    {
        self.width
    }

    pub fn height(&self) -> (r: u32)
        ensures
            r == self@.height,
    {
        self.height
    }

    pub fn color(&self) -> (r: ColorType)
        ensures
            r == self@.color,
    {
        self.color
    }

    pub fn format(&self) -> (r: ImageFormat)
        ensures
            r == self@.format,
    {
        self.format
    }

    pub fn pixels(&self) -> (r: &[u8])
        ensures
            r@ == self@.pixels,
    {
        self.pixels.as_slice()
    }
}

/// The path an output is written to: the given path with `.jpeg` appended,
/// whichever encoder produced the bytes.
pub fn output_path(path: &str) -> (r: String)
    ensures
        r@ == path@ + ".jpeg"@,
{
    let mut out = path.to_owned();
    out.append(".jpeg");
    out
}


/// The image that `Stamper::new` builds from `bytes` decoded as `format`.
pub open spec fn decoded_model(bytes: Seq<u8>, format: ImageFormat) -> ImageModel {
    let (pixels, width, height, color) = decoded(bytes, format);
    ImageModel { pixels, width, height, color, format }
}

/// Whether a format is recognised in `bytes` and its codec accepts them.
pub open spec fn loads(bytes: Seq<u8>) -> bool {
    guessed_format(bytes) matches Some(f) && decodes(bytes, f)
}

/// The image decoded from `bytes` in the format recognised there.
pub open spec fn loaded_model(bytes: Seq<u8>) -> ImageModel {
    decoded_model(bytes, guessed_format(bytes)->Some_0)
}

/// Decodes `input`, stamps `msg` at a random offset in
/// `[0, len - msg.len())` and encodes the result again. Fails with the
/// error of the first step that fails.
pub fn stamp(input: &[u8], msg: &[u8]) -> (r: Result<Vec<u8>, StampError>)
    ensures
        guessed_format(input@) is None ==> r == Err::<Vec<u8>, StampError>(
            StampError::UnknownFormat,
        ),
        guessed_format(input@) matches Some(f) && !decodes(input@, f) ==> r is Err && r->Err_0 is Decode,
        loads(input@) && msg@.len() >= loaded_model(input@).pixels.len() ==> r == Err::<
            Vec<u8>,
            StampError,
        >(StampError::Capacity),
        loads(input@) && msg@.len() < loaded_model(input@).pixels.len() ==> exists|at: int|
            loaded_model(input@).drawable_offset(msg@.len() as int, at) && (r is Ok ==> encoded(
                #[trigger] loaded_model(input@).stamped(msg@, at),
            ) == Some(r->Ok_0@)) && (r is Err ==> r->Err_0 is Encode && encoded(
                loaded_model(input@).stamped(msg@, at),
            ) is None),
{
    let stamper = Stamper::new(input)?;
    let stamped = stamper.embed(msg)?;
    let out = stamped.encode()?;
    Ok(out)
}

} // verus!
