//! The orchestrator: owns the decode session and the output surface, and
//! processes one chunk per call — decode outcome in, frame converted and
//! delivered to the surface, session released to the next caller. Per-chunk
//! failures never tear the pipeline down; only failures while opening the
//! session or the device are fatal, and then no pipeline exists at all.

use vstd::prelude::*;

use crate::convert::{convert, packed_frame, plane_geometry_ok};
use crate::decode::{DecodeEvent, DecodeSession};
use crate::device::{open_outcome, surface_after_write, OutputSurface};
use crate::error::PipelineError;

verus! {

/// What one successful submit did.
#[derive(Clone, Copy, PartialEq, Eq, Structural, Debug)]
pub enum SubmitOutcome {
    /// A frame emerged, was converted, and was delivered to the surface.
    FrameWritten,
    /// The decoder needs more input; nothing was written. Not an error.
    NoFrame,
}

/// The decode session and the mapped output surface, bound together for the
/// life of the stream.
pub struct Pipeline {
    session: DecodeSession,
    surface: OutputSurface,
}

impl Pipeline {
    /// The decode session still holds its hardware context.
    pub closed spec fn session_is_open(&self) -> bool {
        self.session.is_open()
    }

    /// Decode calls made so far on the session.
    pub closed spec fn session_epoch(&self) -> u64 {
        self.session.epoch_count()
    }

    /// Size of the mapped output region.
    pub closed spec fn mapped_size(&self) -> int {
        self.surface.mapped_size()
    }

    /// Bytes currently in the mapped output region.
    pub closed spec fn surface_contents(&self) -> Seq<u8> {
        self.surface.contents()
    }

    /// Builds the pipeline at startup: the decode backend must come up and
    /// the output device must open and map, in that order. Any failure here
    /// is fatal — no pipeline exists — and names the stage that failed.
    pub fn new(backend_ready: bool, device_opened: bool, device_mapped: bool, mapped_size: usize)
        -> (r: Result<Pipeline, PipelineError>)
        ensures
            r is Ok <==> (backend_ready && device_opened && device_mapped),
            !backend_ready ==> r == Err::<Pipeline, PipelineError>(PipelineError::InitError),
            backend_ready && !device_opened ==> r == Err::<Pipeline, PipelineError>(
                PipelineError::DeviceUnavailable,
            ),
            backend_ready && device_opened && !device_mapped ==> r == Err::<Pipeline,
                PipelineError>(PipelineError::MapFailed),
            r matches Ok(p) ==> {
                &&& p.session_is_open()
                &&& p.session_epoch() == 0
                &&& p.mapped_size() == mapped_size
                &&& forall|k: int| 0 <= k < mapped_size ==> p.surface_contents()[k] == 0
            },
    {
        let session = match DecodeSession::open(backend_ready) {
            Ok(s) => s,
            Err(e) => {
                return Err(e);
            },
        };
        match open_outcome(device_opened, device_mapped) {
            Ok(()) => {},
            Err(e) => {
                return Err(e);
            },
        }
        let surface = OutputSurface::new(mapped_size);
        Ok(Pipeline { session, surface })
    }

    /// Processes one chunk's decode outcome under exclusive access to the
    /// session, which the caller holds for the whole call: no frame means
    /// success with nothing written; a frame is converted with the
    /// caller-supplied width and height and delivered to the surface as one
    /// bounded copy; a malformed chunk or inconsistent plane geometry is
    /// reported per-chunk while the session and surface stay usable.
    pub fn submit(&mut self, event: DecodeEvent, width: usize, height: usize) -> (r: Result<
        SubmitOutcome,
        PipelineError,
    >)
        requires
            old(self).session_is_open(),
            old(self).session_epoch() < u64::MAX,
        ensures
            final(self).session_is_open(),
            final(self).session_epoch() == old(self).session_epoch() + 1,
            final(self).mapped_size() == old(self).mapped_size(),
            event is NeedMoreData ==> r == Ok::<SubmitOutcome, PipelineError>(
                SubmitOutcome::NoFrame,
            ) && final(self).surface_contents() == old(self).surface_contents(),
            event is Malformed ==> r == Err::<SubmitOutcome, PipelineError>(
                PipelineError::DecodeError,
            ) && final(self).surface_contents() == old(self).surface_contents(),
            event matches DecodeEvent::FrameReady(f) ==> {
                let geometry_ok = plane_geometry_ok(
                    f.y@.len() as int,
                    f.u@.len() as int,
                    f.v@.len() as int,
                    f.y_stride as int,
                    f.u_stride as int,
                    f.v_stride as int,
                    width as int,
                    height as int,
                );
                &&& geometry_ok ==> r == Ok::<SubmitOutcome, PipelineError>(
                    SubmitOutcome::FrameWritten,
                ) && final(self).surface_contents() == surface_after_write(
                    old(self).surface_contents(),
                    packed_frame(
                        f.y@,
                        f.u@,
                        f.v@,
                        f.y_stride as int,
                        f.u_stride as int,
                        f.v_stride as int,
                        width as int,
                        height as int,
                    ),
                )
                &&& !geometry_ok ==> r == Err::<SubmitOutcome, PipelineError>(
                    PipelineError::ConvertError,
                ) && final(self).surface_contents() == old(self).surface_contents()
            },
    {
        let handle = match self.session.ingest(event) {
            Ok(h) => h,
            Err(e) => {
                return Err(e);
            },
        };
        let handle = match handle {
            Some(h) => h,
            None => {
                return Ok(SubmitOutcome::NoFrame);
            },
        };
        let frame = match self.session.frame_planes(handle) {
            Some(f) => f,
            None => {
                proof {
                    assert(false);
                }
                return Ok(SubmitOutcome::NoFrame);
            },
        };
        let packed = match convert(
            frame.y.as_slice(),
            frame.u.as_slice(),
            frame.v.as_slice(),
            frame.y_stride,
            frame.u_stride,
            frame.v_stride,
            width,
            height,
        ) {
            Ok(p) => p,
            Err(e) => {
                return Err(e);
            },
        };
        self.surface.write_frame(packed.as_slice());
        Ok(SubmitOutcome::FrameWritten)
    }

    /// Whether the decode session still holds its hardware context.
    pub fn is_open(&self) -> (b: bool)
        ensures
            b == self.session_is_open(),
    {
        self.session.opened()
    }

    /// Chunks submitted so far.
    pub fn chunks_submitted(&self) -> (n: u64)
        ensures
            n == self.session_epoch(),
    {
        self.session.epoch()
    }

    /// Current bytes of the output region, for the consumer draining it.
    pub fn surface_bytes(&self) -> (r: &Vec<u8>)
        ensures
            r@ == self.surface_contents(),
    {
        self.surface.bytes()
    }

    /// Tears the pipeline down: releases the session's hardware context and
    /// the mapped region, each exactly once.
    pub fn close(self)
        requires
            self.session_is_open(),
    {
        let Pipeline { mut session, surface } = self;
        session.close();
        surface.close();
    }
}

} // verus!
