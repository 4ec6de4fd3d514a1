use vstd::prelude::*;

verus! {

#[verifier::external_type_specification]
#[verifier::external_body]
pub struct ExIoError(std::io::Error);

/// The ways in which shrinking one image can fail.
#[derive(Debug)]
pub enum ImageProcessorError {
    /// The input's extension names no supported format.
    UnsupportedFormat,
    /// A quality value above 100.
    QualityOutOfRange,
    /// Opening, creating, reading or writing a file failed.
    IoError(std::io::Error),
    /// The bytes are not a valid image of the declared format, or could not be encoded.
    DecodingError(String),
    /// A remote source could not be fetched.
    FetchError(String),
    /// The source has no final path component to name the output after.
    InvalidInputPath,
}

} // verus!
