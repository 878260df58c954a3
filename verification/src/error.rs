//! Error taxonomy of the pipeline. Start-up failures are fatal; per-chunk
//! failures leave the decode session and the output device usable for the
//! next chunk. A decoder that merely needs more input is not an error and
//! never appears here.

use vstd::prelude::*;

verus! {

/// Everything a pipeline call can fail with.
#[derive(Clone, Copy, PartialEq, Eq, Structural, Debug)]
pub enum PipelineError {
    /// Hardware backend, codec, or device unavailable at open time; fatal to
    /// pipeline startup.
    InitError,
    /// Malformed or unsupported bitstream chunk; the session stays usable.
    DecodeError,
    /// Plane geometry inconsistent with the stated width, height or stride;
    /// a contract violation on the converter's input.
    ConvertError,
    /// The output device path could not be opened.
    DeviceUnavailable,
    /// The device opened but its memory region could not be mapped.
    MapFailed,
}

} // verus!
