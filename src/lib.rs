//! Batch JPEG shrinking: quality values, format dispatch by file extension,
//! JPEG re-encoding, and the decisions that a batch run takes for each source.
mod error;
pub mod jpeg;
pub mod path;
pub mod processor;
mod quality;
pub mod source;

pub use error::ImageProcessorError;
pub use processor::{DefaultImageProcessorFactory, ImageProcessor, ImageProcessorFactory, JpegProcessor};
pub use quality::{Quality, MAX_QUALITY};
pub use source::{check_fetch_status, output_path, plan_shrink, ImageSource, ShrinkJob};
