use vstd::prelude::*;
use vstd::string::StringExecFns;

use crate::error::{AppError, AppErrorView, AppResult};

verus! {

/// The sample encodings an input device may offer.
#[derive(Debug, Clone, Copy, PartialEq, Eq, Structural)]
pub enum SampleFormat {
    I8,
    I16,
    I32,
    I64,
    U8,
    U16,
    U32,
    U64,
    F32,
    F64,
}

/// The sample encodings a capture can take in; all are written out as 16-bit integers.
#[derive(Debug, Clone, Copy, PartialEq, Eq, Structural)]
pub enum SampleKind {
    F32,
    I16,
    U16,
}

/// The encoding captured for a device format, if the format is one that can be captured.
pub open spec fn spec_sample_kind(format: SampleFormat) -> Option<SampleKind> {
    match format {
        SampleFormat::F32 => Some(SampleKind::F32),
        SampleFormat::I16 => Some(SampleKind::I16),
        SampleFormat::U16 => Some(SampleKind::U16),
        _ => None,
    }
}

/// Chooses how the samples of a device are taken in, or refuses the device's format.
pub fn sample_kind(format: SampleFormat) -> (r: AppResult<SampleKind>)
    ensures
        match spec_sample_kind(format) {
            Some(kind) => r == Ok::<SampleKind, AppError>(kind),
            None => r matches Err(e) && e@ == AppErrorView::Capture("unsupported input sample format"@),
        },
{
    match format {
        SampleFormat::F32 => Ok(SampleKind::F32),
        SampleFormat::I16 => Ok(SampleKind::I16),
        SampleFormat::U16 => Ok(SampleKind::U16),
        _ => Err(AppError::Capture(String::from_str("unsupported input sample format"))),
    }
}

/// Bits per sample of every capture file.
pub const WAV_BITS_PER_SAMPLE: u16 = 16;

} // verus!
