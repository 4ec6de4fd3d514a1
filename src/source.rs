use vstd::prelude::*;
use vstd::string::*;

use crate::error::ImageProcessorError;
use crate::path::{file_name, file_name_of, has_prefix, join, joined, starts_with};
use crate::processor::{ImageProcessor, ImageProcessorFactory};

verus! {

pub open spec fn http_scheme() -> Seq<char> {
    seq!['h', 't', 't', 'p', ':', '/', '/']
}

pub open spec fn https_scheme() -> Seq<char> {
    seq!['h', 't', 't', 'p', 's', ':', '/', '/']
}

/// A source is remote exactly when it begins with `http://` or `https://`.
pub open spec fn is_remote(source: Seq<char>) -> bool {
    has_prefix(source, http_scheme()) || has_prefix(source, https_scheme())
}

/// Where the bytes of a source come from.
pub enum ImageSource {
    /// A path on the local file system.
    Local(String),
    /// A URL to fetch over HTTP.
    Remote(String),
}

impl ImageSource {
    /// The source string that was classified.
    pub open spec fn spec_text(&self) -> Seq<char> {
        match self {
            ImageSource::Local(p) => p@,
            ImageSource::Remote(u) => u@,
        }
    }

    /// Classifies a source string by its scheme.
    pub fn classify(source: &str) -> (r: ImageSource)
        ensures
            r is Remote <==> is_remote(source@),
            r.spec_text() == source@,
    {
        let http = "http://";
        let https = "https://";
        proof {
            reveal_strlit("http://");
            reveal_strlit("https://");
            assert(http@ =~= http_scheme());
            assert(https@ =~= https_scheme());
        }
        if starts_with(source, http) || starts_with(source, https) {
            ImageSource::Remote(String::from_str(source))
        } else {
            ImageSource::Local(String::from_str(source))
        }
    }
}

/// Whether an HTTP status reports success.
pub open spec fn is_success_status(status: u16) -> bool {
    200 <= status <= 299
}

/// Accepts the response to a fetch of `url` only when its status is in the
/// 2xx range; any other status is a fetch error.
pub fn check_fetch_status(url: &str, status: u16) -> (r: Result<(), ImageProcessorError>)
    ensures
        r is Ok <==> is_success_status(status),
        r matches Err(e) ==> e is FetchError,
{
    if 200 <= status && status <= 299 {
        Ok(())
    } else {
        Err(ImageProcessorError::FetchError(String::from_str("Failed to fetch image from URL: ").concat(url)))
    }
}

/// The output path of a source: its file name under `output_dir`.
pub open spec fn output_path_of(source: Seq<char>, output_dir: Seq<char>) -> Option<Seq<char>> {
    match file_name_of(source) {
        Some(name) => Some(joined(output_dir, name)),
        None => None,
    }
}

/// Names the output of a source after the source's own file name, placed
/// under `output_dir`; a source without a file name is refused.
pub fn output_path(source: &str, output_dir: &str) -> (r: Result<String, ImageProcessorError>)
    ensures
        r is Ok <==> output_path_of(source@, output_dir@) is Some,
        r matches Ok(p) ==> output_path_of(source@, output_dir@) == Some(p@),
        r matches Err(e) ==> e is InvalidInputPath,
{
    match file_name(source) {
        Some(name) => Ok(join(output_dir, name.as_str())),
        None => Err(ImageProcessorError::InvalidInputPath),
    }
}

/// The work for one staged source: which processor reads it, and where its
/// output goes.
pub struct ShrinkJob<P> {
    pub processor: P,
    pub output_path: String,
}

/// Decides what becomes of one source: its output is named after the source
/// as given, while the processor is chosen for, and reads, the staged copy.
pub fn plan_shrink<F: ImageProcessorFactory>(
    factory: &F,
    source: &str,
    staged: &str,
    output_dir: &str,
) -> (r: Result<ShrinkJob<F::Processor>, ImageProcessorError>)
    ensures
        r is Ok <==> output_path_of(source@, output_dir@) is Some && factory.supports(staged@),
        r matches Ok(job) ==> Some(job.output_path@) == output_path_of(source@, output_dir@)
            && job.processor.spec_input_path() == staged@,
        output_path_of(source@, output_dir@) is None ==> (r matches Err(e) && e is InvalidInputPath),
        output_path_of(source@, output_dir@) is Some && !factory.supports(staged@) ==> (r matches Err(
            e,
        ) && e is UnsupportedFormat),
{
    let out = output_path(source, output_dir)?;
    let processor = factory.process_image(staged)?;
    Ok(ShrinkJob { processor, output_path: out })
}

/// Two sources with the same file name are written to the same output path,
/// so the one that finishes last is the one that remains.
pub proof fn lemma_same_name_same_output(a: Seq<char>, b: Seq<char>, output_dir: Seq<char>)
    requires
        file_name_of(a) == file_name_of(b),
    ensures
        output_path_of(a, output_dir) == output_path_of(b, output_dir),
{
}

} // verus!
