use vstd::prelude::*;
use vstd::string::*;

use crate::error::ImageProcessorError;
use crate::quality::Quality;

verus! {

#[verifier::external_type_specification]
#[verifier::external_body]
#[verifier::reject_recursive_types(R)]
pub struct ExJpegDecoder<R>(image::codecs::jpeg::JpegDecoder<R>);

#[verifier::external_type_specification]
#[verifier::external_body]
#[verifier::reject_recursive_types(T)]
pub struct ExCursor<T>(std::io::Cursor<T>);

#[verifier::external_type_specification]
#[verifier::external_body]
pub struct ExImageError(image::ImageError);

/// The pixel layouts that the JPEG decoder hands out, 8 bits per channel.
#[derive(Debug, Clone, Copy, PartialEq, Eq, Structural)]
pub enum ColorLayout {
    L8,
    La8,
    Rgb8,
    Rgba8,
}

impl ColorLayout {
    pub open spec fn spec_bytes_per_pixel(self) -> nat {
        match self {
            ColorLayout::L8 => 1,
            ColorLayout::La8 => 2,
            ColorLayout::Rgb8 => 3,
            ColorLayout::Rgba8 => 4,
        }
    }

    /// Bytes that one pixel takes in this layout.
    pub fn bytes_per_pixel(&self) -> (r: u8)
        ensures
            r == self.spec_bytes_per_pixel(),
    {
        match self {
            ColorLayout::L8 => 1,
            ColorLayout::La8 => 2,
            ColorLayout::Rgb8 => 3,
            ColorLayout::Rgba8 => 4,
        }
    }
}

/// Bytes of a pixel buffer of the given size and layout.
pub open spec fn buffer_len(width: u32, height: u32, color: ColorLayout) -> int {
    width * height * color.spec_bytes_per_pixel()
}

/// Whether the JPEG encoder accepts an image of this size and layout.
pub open spec fn encodable(width: u32, height: u32, color: ColorLayout) -> bool {
    &&& (color is L8 || color is Rgb8)
    &&& 1 <= width <= 65535
    &&& 1 <= height <= 65535
}

/// The bytes on which the JPEG decoder can read headers.
pub uninterp spec fn jpeg_headers_valid(bytes: Seq<u8>) -> bool;

/// What the JPEG decoder reads from the bytes: pixels, width, height and
/// layout, or `None` where reading fails.
pub uninterp spec fn jpeg_decoded(bytes: Seq<u8>) -> Option<(Seq<u8>, u32, u32, ColorLayout)>;

/// What the JPEG encoder writes for a pixel buffer, or `None` where it fails.
pub uninterp spec fn jpeg_encoded(
    pixels: Seq<u8>,
    width: u32,
    height: u32,
    color: ColorLayout,
    quality: u8,
) -> Option<Seq<u8>>;

/// A JPEG decoder and the bytes it was opened on.
struct JpegStream {
    decoder: image::codecs::jpeg::JpegDecoder<std::io::Cursor<Vec<u8>>>,
    source: Ghost<Seq<u8>>,
}

/// Relies on `image::codecs::jpeg::JpegDecoder::new`, which reads the stream
/// whole and succeeds exactly when the headers decode; a stream that decodes
/// whole has headers that decode.
#[verifier::external_body]
fn open_jpeg(bytes: &[u8]) -> (r: Result<JpegStream, image::ImageError>)
    ensures
        r is Ok <==> jpeg_headers_valid(bytes@),
        r matches Ok(s) ==> s.source@ == bytes@,
        jpeg_decoded(bytes@) is Some ==> r is Ok,
{
    let source = Ghost(bytes@);
    let decoder = image::codecs::jpeg::JpegDecoder::new(std::io::Cursor::new(bytes.to_vec()))?;
    Ok(JpegStream { decoder, source })
}

/// Relies on `ImageDecoder::dimensions` of `JpegDecoder`, which widens the
/// 16-bit sizes of the header: the size of what is then read.
#[verifier::external_body]
fn jpeg_dimensions(s: &JpegStream) -> (r: (u32, u32))
    ensures
        r.0 <= 65535,
        r.1 <= 65535,
        jpeg_decoded(s.source@) matches Some(t) ==> r.0 == t.1 && r.1 == t.2,
{
    image::ImageDecoder::dimensions(&s.decoder)
}

/// Relies on `ImageDecoder::color_type` of `JpegDecoder`: the layout of what
/// is then read. A layout outside the four listed gives `None`.
#[verifier::external_body]
fn jpeg_color(s: &JpegStream) -> (r: Option<ColorLayout>)
    ensures
        jpeg_decoded(s.source@) matches Some(t) ==> r == Some(t.3),
{
    match image::ImageDecoder::color_type(&s.decoder) {
        image::ColorType::L8 => Some(ColorLayout::L8),
        image::ColorType::La8 => Some(ColorLayout::La8),
        image::ColorType::Rgb8 => Some(ColorLayout::Rgb8),
        image::ColorType::Rgba8 => Some(ColorLayout::Rgba8),
        _ => None,
    }
}

/// Relies on `ImageDecoder::read_image` of `JpegDecoder`, which fills the
/// buffer in place, succeeds when the buffer has the advertised length and
/// the data decodes, and fails, without panicking, otherwise.
#[verifier::external_body]
fn read_jpeg(s: JpegStream, buf: &mut Vec<u8>) -> (r: Result<(), image::ImageError>)
    ensures
        final(buf)@.len() == old(buf)@.len(),
        r is Ok ==> (jpeg_decoded(s.source@) matches Some(t) && final(buf)@ == t.0),
        (jpeg_decoded(s.source@) matches Some(t) && old(buf)@.len() == buffer_len(t.1, t.2, t.3))
            ==> r is Ok,
{
    image::ImageDecoder::read_image(s.decoder, buf.as_mut_slice())
}

/// Relies on `JpegEncoder::new_with_quality` and `JpegEncoder::encode` writing
/// into a `Vec`, which cannot fail: the output depends on the arguments
/// alone, and exactly the 8-bit gray or RGB images of 1 to 65535 pixels a
/// side are accepted. `encode` panics when the buffer length does not match
/// the size, hence the `requires`.
#[verifier::external_body]
fn encode_jpeg(pixels: &[u8], width: u32, height: u32, color: ColorLayout, quality: u8) -> (r:
    Result<Vec<u8>, image::ImageError>)
    requires
        pixels@.len() == buffer_len(width, height, color),
    ensures
        r is Ok <==> encodable(width, height, color),
        r is Ok <==> jpeg_encoded(pixels@, width, height, color, quality) is Some,
        r matches Ok(v) ==> jpeg_encoded(pixels@, width, height, color, quality) == Some(v@),
{
    let c = match color {
        ColorLayout::L8 => image::ExtendedColorType::L8,
        ColorLayout::La8 => image::ExtendedColorType::La8,
        ColorLayout::Rgb8 => image::ExtendedColorType::Rgb8,
        ColorLayout::Rgba8 => image::ExtendedColorType::Rgba8,
    };
    let mut out = Vec::new();
    let done = image::codecs::jpeg::JpegEncoder::new_with_quality(&mut out, quality).encode(
        pixels,
        width,
        height,
        c,
    );
    done.map(|_| out)
}

/// Relies on the `Display` text of `image::ImageError`.
#[verifier::external_body]
fn image_error_message(e: &image::ImageError) -> String {
    e.to_string()
}

/// A decoded image: its size, pixel layout and pixel bytes, row by row.
pub struct DecodedImage {
    pub width: u32,
    pub height: u32,
    pub color: ColorLayout,
    pub pixels: Vec<u8>,
}

impl DecodedImage {
    /// The pixel buffer holds exactly one entry per byte of every pixel.
    pub open spec fn wf(&self) -> bool {
        self.pixels@.len() == buffer_len(self.width, self.height, self.color)
    }
}

/// A decoding error whose message is `prefix` followed by the decoder's own.
fn decoding_error(prefix: &str, e: &image::ImageError) -> (r: ImageProcessorError)
    ensures
        r is DecodingError,
{
    ImageProcessorError::DecodingError(String::from_str(prefix).concat(image_error_message(e).as_str()))
}

/// Decodes JPEG bytes into their pixels.
pub fn decode(bytes: &[u8]) -> (r: Result<DecodedImage, ImageProcessorError>)
    ensures
        r is Ok <==> (jpeg_decoded(bytes@) matches Some(t) && buffer_len(t.1, t.2, t.3)
            <= usize::MAX),
        r matches Ok(img) ==> jpeg_decoded(bytes@) == Some(
            (img.pixels@, img.width, img.height, img.color),
        ),
        r matches Ok(img) ==> img.wf() && img.width <= 65535 && img.height <= 65535,
        r matches Err(e) ==> e is DecodingError,
{
    let d = match open_jpeg(bytes) {
        Ok(d) => d,
        Err(e) => return Err(decoding_error("Failed to start decoding JPEG: ", &e)),
    };
    let (width, height) = jpeg_dimensions(&d);
    let color = match jpeg_color(&d) {
        Some(c) => c,
        None => {
            return Err(
                ImageProcessorError::DecodingError(
                    String::from_str("Failed to parse JPEG image: unsupported color type"),
                ),
            )
        },
    };
    let bpp = color.bytes_per_pixel();
    assert(width * height <= 65535 * 65535) by (nonlinear_arith)
        requires
            width <= 65535,
            height <= 65535,
    ;
    assert(width * height * bpp <= 65535 * 65535 * 4) by (nonlinear_arith)
        requires
            width * height <= 65535 * 65535,
            bpp <= 4,
    ;
    let total: u64 = width as u64 * height as u64 * bpp as u64;
    assert(total == buffer_len(width, height, color));
    if total > usize::MAX as u64 {
        return Err(
            ImageProcessorError::DecodingError(
                String::from_str("Failed to parse JPEG image: too large for memory"),
            ),
        );
    }
    let mut pixels: Vec<u8> = vec![0u8; total as usize];
    match read_jpeg(d, &mut pixels) {
        Ok(()) => {},
        Err(e) => return Err(decoding_error("Failed to parse JPEG image: ", &e)),
    }
    Ok(DecodedImage { width, height, color, pixels })
}

/// Encodes a decoded image as JPEG at the given quality.
pub fn encode(img: &DecodedImage, quality: Quality) -> (r: Result<Vec<u8>, ImageProcessorError>)
    requires
        img.wf(),
    ensures
        r is Ok <==> encodable(img.width, img.height, img.color),
        r is Ok <==> jpeg_encoded(img.pixels@, img.width, img.height, img.color, quality.spec_value()) is Some,
        r matches Ok(v) ==> jpeg_encoded(img.pixels@, img.width, img.height, img.color, quality.spec_value()) == Some(v@),
        r matches Err(e) ==> e is DecodingError,
{
    match encode_jpeg(img.pixels.as_slice(), img.width, img.height, img.color, quality.value()) {
        Ok(v) => Ok(v),
        Err(e) => Err(decoding_error("Failed to encode JPEG image: ", &e)),
    }
}

} // verus!
