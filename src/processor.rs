use vstd::prelude::*;
use vstd::string::*;

use crate::error::ImageProcessorError;
use crate::jpeg::{buffer_len, decode, encodable, encode, jpeg_decoded, jpeg_encoded};
use crate::path::{extension, file_name, path_extension};
use crate::quality::Quality;

verus! {

/// Re-encodes the image of one input at a chosen quality.
pub trait ImageProcessor {
    /// The input this processor was made for.
    spec fn spec_input_path(&self) -> Seq<char>;

    /// The input this processor was made for.
    fn input_path(&self) -> (r: &str)
        ensures
            r@ == self.spec_input_path(),
    ;

    /// Shrinks `input`, the bytes read from the input path, to an encoding at
    /// `quality`. Malformed bytes are a decoding error.
    fn shrink(&self, input: &[u8], quality: Quality) -> (r: Result<Vec<u8>, ImageProcessorError>)
        ensures
            r matches Err(e) ==> e is DecodingError,
    ;
}

/// Picks the processor that handles an input.
pub trait ImageProcessorFactory {
    type Processor: ImageProcessor;

    /// The inputs that this factory has a processor for.
    spec fn supports(&self, path: Seq<char>) -> bool;

    /// The processor for the input at `image`; an input in no supported
    /// format is refused.
    fn process_image(&self, image: &str) -> (r: Result<Self::Processor, ImageProcessorError>)
        ensures
            r is Ok <==> self.supports(image@),
            r matches Ok(p) ==> p.spec_input_path() == image@,
            r matches Err(e) ==> e is UnsupportedFormat,
    ;
}

/// Whether a path names a JPEG file: its extension is `jpg` or `jpeg`,
/// lower case.
pub open spec fn is_jpeg_path(path: Seq<char>) -> bool {
    path_extension(path) == Some(seq!['j', 'p', 'g']) || path_extension(path) == Some(
        seq!['j', 'p', 'e', 'g'],
    )
}

/// Tests whether a path names a JPEG file.
pub fn has_jpeg_extension(path: &str) -> (r: bool)
    ensures
        r == is_jpeg_path(path@),
{
    let name = match file_name(path) {
        Some(n) => n,
        None => return false,
    };
    let ext = match extension(name.as_str()) {
        Some(e) => e,
        None => return false,
    };
    let jpg = String::from_str("jpg");
    let jpeg = String::from_str("jpeg");
    proof {
        reveal_strlit("jpg");
        reveal_strlit("jpeg");
        assert(jpg@ =~= seq!['j', 'p', 'g']);
        assert(jpeg@ =~= seq!['j', 'p', 'e', 'g']);
    }
    ext == jpg || ext == jpeg
}

/// The factory of this library: JPEG inputs, told by their extension.
pub struct DefaultImageProcessorFactory {}

impl ImageProcessorFactory for DefaultImageProcessorFactory {
    type Processor = JpegProcessor;

    open spec fn supports(&self, path: Seq<char>) -> bool {
        is_jpeg_path(path)
    }

    fn process_image(&self, image: &str) -> (r: Result<JpegProcessor, ImageProcessorError>) {
        if has_jpeg_extension(image) {
            Ok(JpegProcessor { input_path: String::from_str(image) })
        } else {
            Err(ImageProcessorError::UnsupportedFormat)
        }
    }
}

/// Re-encodes JPEG images.
pub struct JpegProcessor {
    input_path: String,
}

/// What shrinking JPEG bytes at `quality` gives: the decoded pixels
/// encoded again with their size and layout unchanged, or `None` where the
/// bytes do not decode, the image cannot be encoded, or its pixels would not
/// fit in memory.
pub open spec fn jpeg_shrunk(input: Seq<u8>, quality: u8) -> Option<Seq<u8>> {
    match jpeg_decoded(input) {
        Some(t) => if encodable(t.1, t.2, t.3) && buffer_len(t.1, t.2, t.3) <= usize::MAX {
            jpeg_encoded(t.0, t.1, t.2, t.3, quality)
        } else {
            None
        },
        None => None,
    }
}

/// Shrinking is a function of the input bytes and the quality: two
/// successful shrinks of the same bytes at the same quality give the same
/// output.
pub proof fn lemma_shrink_is_deterministic(
    input: Seq<u8>,
    quality: Quality,
    first: Seq<u8>,
    second: Seq<u8>,
)
    requires
        jpeg_shrunk(input, quality.spec_value()) == Some(first),
        jpeg_shrunk(input, quality.spec_value()) == Some(second),
    ensures
        first == second,
{
}

/// A shrunk image keeps the width and height of its input: the output is the
/// encoding of the input's own pixels, at their own size and layout.
pub proof fn lemma_shrink_keeps_size(input: Seq<u8>, quality: Quality, out: Seq<u8>)
    requires
        jpeg_shrunk(input, quality.spec_value()) == Some(out),
    ensures
        jpeg_decoded(input) matches Some(t) && encodable(t.1, t.2, t.3) && jpeg_encoded(
            t.0,
            t.1,
            t.2,
            t.3,
            quality.spec_value(),
        ) == Some(out),
{
}

impl JpegProcessor {
    /// A processor for the JPEG file at `input_path`.
    pub fn new(input_path: &str) -> (r: JpegProcessor)
        ensures
            r.spec_input_path() == input_path@,
    {
        JpegProcessor { input_path: String::from_str(input_path) }
    }
}

impl ImageProcessor for JpegProcessor {
    closed spec fn spec_input_path(&self) -> Seq<char> {
        self.input_path@
    }

    fn input_path(&self) -> (r: &str) {
        self.input_path.as_str()
    }

    /// Decodes the whole image, then encodes its pixels, size and layout
    /// unchanged at `quality`.
    fn shrink(&self, input: &[u8], quality: Quality) -> (r: Result<Vec<u8>, ImageProcessorError>)
        ensures
            r is Ok <==> jpeg_shrunk(input@, quality.spec_value()) is Some,
            r matches Ok(out) ==> jpeg_shrunk(input@, quality.spec_value()) == Some(out@),
    {
        let img = decode(input)?;
        let out = encode(&img, quality)?;
        Ok(out)
    }
}

} // verus!
