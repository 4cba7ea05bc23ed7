//! The error kinds that I/O failures of the transcript store are reported as.

use std::io::Error as IoError;

use vstd::prelude::*;

use crate::error::BsuiteCoreError;

verus! {

#[verifier::external_type_specification]
#[verifier::external_body]
pub struct ExIoError(IoError);

/// Formats an I/O error with `Display`. Nothing is claimed of the text:
/// it comes from the operating system.
#[verifier::external_body]
fn io_error_text(error: &IoError) -> String {
    error.to_string()
}

/// An I/O failure while resolving the transcript directory.
pub fn path_error(error: IoError) -> (reported: BsuiteCoreError)
    ensures
        reported is TranscriptPathFailed,
{
    BsuiteCoreError::TranscriptPathFailed(io_error_text(&error))
}

/// An I/O failure while writing or checking a transcript.
pub fn write_error(error: IoError) -> (reported: BsuiteCoreError)
    ensures
        reported is TranscriptWriteFailed,
{
    BsuiteCoreError::TranscriptWriteFailed(io_error_text(&error))
}

/// An I/O failure while rewriting the daily manifest.
pub fn manifest_error(error: IoError) -> (reported: BsuiteCoreError)
    ensures
        reported is TranscriptManifestFailed,
{
    BsuiteCoreError::TranscriptManifestFailed(io_error_text(&error))
}

} // verus!
