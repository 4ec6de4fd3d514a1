use vstd::prelude::*;

use crate::error::ImageProcessorError;

verus! {

/// The largest quality value.
pub const MAX_QUALITY: u8 = 100;

/// Compression quality of an encoded image, from 0 (smallest) to 100 (best).
#[derive(Debug, Clone, Copy, PartialEq, Eq)]
pub struct Quality(u8);

impl Quality {
    /// A quality never holds a value above 100.
    #[verifier::type_invariant]
    spec fn inv(self) -> bool {
        self.0 <= MAX_QUALITY
    }

    pub closed spec fn spec_value(self) -> u8 {
        self.0
    }

    /// The validated value.
    pub fn value(&self) -> (r: u8)
        ensures
            r == self.spec_value(),
            r <= MAX_QUALITY,
    {
        proof {
            use_type_invariant(self);
        }
        self.0
    }

    /// Builds a quality from a raw setting of any width.
    pub fn from_setting(raw: u64) -> (r: Result<Quality, ImageProcessorError>)
        ensures
            r is Ok <==> raw <= MAX_QUALITY,
            r is Ok ==> r->Ok_0.spec_value() == raw,
            r is Err ==> r->Err_0 is QualityOutOfRange,
    {
        if raw > MAX_QUALITY as u64 {
            Err(ImageProcessorError::QualityOutOfRange)
        } else {
            Ok(Quality(raw as u8))
        }
    }
}

impl TryFrom<u8> for Quality {
    type Error = ImageProcessorError;

    fn try_from(value: u8) -> (r: Result<Quality, ImageProcessorError>)
        ensures
            r is Ok <==> value <= MAX_QUALITY,
            r is Ok ==> r->Ok_0.spec_value() == value,
            r is Err ==> r->Err_0 is QualityOutOfRange,
    {
        if value > MAX_QUALITY {
            Err(ImageProcessorError::QualityOutOfRange)
        } else {
            Ok(Quality(value))
        }
    }
}

impl vstd::std_specs::convert::TryFromSpecImpl<u8> for Quality {
    open spec fn obeys_try_from_spec() -> bool {
        true
    }

    closed spec fn try_from_spec(value: u8) -> Result<Quality, ImageProcessorError> {
        if value > MAX_QUALITY {
            Err(ImageProcessorError::QualityOutOfRange)
        } else {
            Ok(Quality(value))
        }
    }
}

} // verus!
