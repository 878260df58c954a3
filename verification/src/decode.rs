//! Decode-session state machine. A session is stateful and hardware-bound:
//! it accepts one compressed chunk per call and yields at most one decoded
//! frame, whose plane memory belongs to the session and is invalidated by
//! the next call. Frame handles carry the session epoch of their birth, so a
//! handle from before the latest call can no longer reach any planes.

use vstd::prelude::*;

use crate::error::PipelineError;

verus! {

/// One decoded frame: three 4:2:0 planes copied out of the decoder, each
/// with the row stride the decoder chose (possibly wider than the logical
/// width), plus the frame's true dimensions.
pub struct DecodedFrame {
    pub y: Vec<u8>,
    pub u: Vec<u8>,
    pub v: Vec<u8>,
    pub y_stride: usize,
    pub u_stride: usize,
    pub v_stride: usize,
    pub width: usize,
    pub height: usize,
}

/// What one call of the streaming decoder backend concluded for one chunk.
pub enum DecodeEvent {
    /// The decoder emitted a frame.
    FrameReady(DecodedFrame),
    /// The decoder consumed the chunk but needs more input; not an error.
    NeedMoreData,
    /// The chunk was malformed or unsupported; the session stays usable.
    Malformed,
}

/// How one receive call on the streaming decoder concluded, judged from its
/// return code.
#[derive(Clone, Copy, PartialEq, Eq, Structural, Debug)]
pub enum ReceiveKind {
    /// A decoded frame is ready to be read out.
    FrameAvailable,
    /// The decoder consumed the input and wants more before it can emit.
    MoreInputNeeded,
    /// The chunk was rejected; the session itself stays usable.
    ChunkRejected,
}

/// Judges a streaming decoder's receive return code: zero yields a frame,
/// the backend's own try-again code asks for more input, and every other
/// code rejects the chunk.
pub fn classify_receive(ret: i32, try_again: i32) -> (k: ReceiveKind)
    ensures
        ret == 0 ==> k == ReceiveKind::FrameAvailable,
        ret != 0 && ret == try_again ==> k == ReceiveKind::MoreInputNeeded,
        ret != 0 && ret != try_again ==> k == ReceiveKind::ChunkRejected,
{
    if ret == 0 {
        ReceiveKind::FrameAvailable
    } else if ret == try_again {
        ReceiveKind::MoreInputNeeded
    } else {
        ReceiveKind::ChunkRejected
    }
}

/// A handle to the frame a particular decode call produced; it reaches the
/// planes only while no further call has been made on the session.
#[derive(Clone, Copy)]
pub struct FrameRef {
    epoch: u64,
}

impl FrameRef {
    /// The session epoch this handle was born in.
    pub closed spec fn born_at(&self) -> u64 {
        self.epoch
    }
}

/// The session: an epoch counting decode calls, the planes of the most
/// recent frame (owned by the session, replaced on every call), and whether
/// the hardware context is still held.
pub struct DecodeSession {
    epoch: u64,
    frame: Option<DecodedFrame>,
    open: bool,
}

impl DecodeSession {
    /// The hardware context is held and calls are accepted.
    pub closed spec fn is_open(&self) -> bool {
        self.open
    }

    /// Number of decode calls made so far.
    pub closed spec fn epoch_count(&self) -> u64 {
        self.epoch
    }

    /// The latest call produced a frame that is still stored.
    pub closed spec fn has_frame(&self) -> bool {
        self.frame is Some
    }

    /// The stored frame.
    pub closed spec fn frame_value(&self) -> DecodedFrame {
        self.frame->Some_0
    }

    /// Whether the hardware context is currently held.
    pub fn opened(&self) -> (b: bool)
        ensures
            b == self.is_open(),
    {
        self.open
    }

    /// Decode calls made so far on this session.
    pub fn epoch(&self) -> (n: u64)
        ensures
            n == self.epoch_count(),
    {
        self.epoch
    }

    /// Acquires the session. The backend reports whether the hardware
    /// context and codec came up; without them no session exists at all —
    /// failure at open time is fatal to startup.
    pub fn open(backend_ready: bool) -> (r: Result<DecodeSession, PipelineError>)
        ensures
            r is Ok <==> backend_ready,
            r matches Ok(s) ==> s.is_open() && s.epoch_count() == 0 && !s.has_frame(),
            r matches Err(e) ==> e == PipelineError::InitError,
    {
        if backend_ready {
            Ok(DecodeSession { epoch: 0, frame: None, open: true })
        } else {
            Err(PipelineError::InitError)
        }
    }

    /// Feeds the session the outcome of decoding one chunk. Every call
    /// advances the epoch, so handles born earlier reach no planes any more.
    /// At most one frame comes back per call: a handle exactly when the
    /// decoder emitted one, `None` when it merely needs more input, and a
    /// per-chunk `DecodeError` — with the session still open and usable —
    /// when the chunk was malformed.
    pub fn ingest(&mut self, event: DecodeEvent) -> (r: Result<Option<FrameRef>, PipelineError>)
        requires
            old(self).is_open(),
            old(self).epoch_count() < u64::MAX,
        ensures
            final(self).is_open(),
            final(self).epoch_count() == old(self).epoch_count() + 1,
            event matches DecodeEvent::FrameReady(f) ==> {
                &&& r matches Ok(h)
                &&& h matches Some(handle)
                &&& handle.born_at() == final(self).epoch_count()
                &&& final(self).has_frame()
                &&& final(self).frame_value() == f
            },
            event is NeedMoreData ==> r == Ok::<Option<FrameRef>, PipelineError>(None)
                && !final(self).has_frame(),
            event is Malformed ==> r == Err::<Option<FrameRef>, PipelineError>(
                PipelineError::DecodeError,
            ) && !final(self).has_frame(),
    {
        self.epoch = self.epoch + 1;
        match event {
            DecodeEvent::FrameReady(f) => {
                self.frame = Some(f);
                Ok(Some(FrameRef { epoch: self.epoch }))
            },
            DecodeEvent::NeedMoreData => {
                self.frame = None;
                Ok(None)
            },
            DecodeEvent::Malformed => {
                self.frame = None;
                Err(PipelineError::DecodeError)
            },
        }
    }

    /// The planes behind a handle: available exactly while the handle is
    /// from the latest call and that call produced a frame. A stale handle —
    /// one from before the most recent call — gets nothing.
    pub fn frame_planes(&self, handle: FrameRef) -> (r: Option<&DecodedFrame>)
        ensures
            r is Some <==> (handle.born_at() == self.epoch_count() && self.has_frame()),
            r matches Some(f) ==> *f == self.frame_value(),
    {
        if handle.epoch == self.epoch {
            match &self.frame {
                Some(f) => Some(f),
                None => None,
            }
        } else {
            None
        }
    }

    /// Releases the hardware context. Accepted only while the session is
    /// open, so the release runs exactly once; the stored frame goes with
    /// it.
    pub fn close(&mut self)
        requires
            old(self).is_open(),
        ensures
            !final(self).is_open(),
            !final(self).has_frame(),
    {
        self.frame = None;
        self.open = false;
    }
}

/// Law: a decode call invalidates prior frame handles. A handle born at the
/// session's epoch before a call cannot equal the epoch after it, so
/// `frame_planes` returns nothing for it from then on.
pub proof fn lemma_decode_invalidates_previous(
    handle: FrameRef,
    before: &DecodeSession,
    after: &DecodeSession,
)
    requires
        handle.born_at() <= before.epoch_count(),
        after.epoch_count() == before.epoch_count() + 1,
    ensures
        handle.born_at() != after.epoch_count(),
{
}

} // verus!
