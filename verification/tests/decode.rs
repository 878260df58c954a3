use phonecam::decode::{classify_receive, DecodeEvent, DecodeSession, DecodedFrame, ReceiveKind};
use phonecam::error::PipelineError;

fn tiny_frame() -> DecodedFrame {
    DecodedFrame {
        y: vec![1, 2, 3, 4],
        u: vec![5],
        v: vec![7],
        y_stride: 2,
        u_stride: 1,
        v_stride: 1,
        width: 2,
        height: 2,
    }
}

#[test]
fn receive_codes_are_classified() {
    // Zero yields a frame; the backend's try-again code (negative errno on
    // this backend) asks for more input; anything else rejects the chunk.
    let try_again: i32 = -11;
    assert_eq!(classify_receive(0, try_again), ReceiveKind::FrameAvailable);
    assert_eq!(classify_receive(-11, try_again), ReceiveKind::MoreInputNeeded);
    assert_eq!(classify_receive(-22, try_again), ReceiveKind::ChunkRejected);
    assert_eq!(classify_receive(1, try_again), ReceiveKind::ChunkRejected);
}

#[test]
fn open_fails_fatally_without_backend() {
    let r = DecodeSession::open(false);
    assert!(matches!(r, Err(PipelineError::InitError)));
}

#[test]
fn at_most_one_frame_per_call() {
    let mut s = DecodeSession::open(true).expect("backend ready");
    let h = s
        .ingest(DecodeEvent::FrameReady(tiny_frame()))
        .expect("frame accepted")
        .expect("one handle");
    let planes = s.frame_planes(h).expect("fresh handle reaches the frame");
    assert_eq!(planes.y, vec![1, 2, 3, 4]);
    assert_eq!(planes.width, 2);
}

#[test]
fn need_more_data_returns_no_frame() {
    let mut s = DecodeSession::open(true).expect("backend ready");
    let r = s.ingest(DecodeEvent::NeedMoreData).expect("not an error");
    assert!(r.is_none());
}

#[test]
fn second_decode_invalidates_prior_handle() {
    let mut s = DecodeSession::open(true).expect("backend ready");
    let stale = s
        .ingest(DecodeEvent::FrameReady(tiny_frame()))
        .expect("frame accepted")
        .expect("one handle");
    assert!(s.frame_planes(stale).is_some());

    // The next call replaces the session's plane memory; the old handle
    // reaches nothing, whether or not a new frame emerged.
    let r = s.ingest(DecodeEvent::NeedMoreData).expect("not an error");
    assert!(r.is_none());
    assert!(s.frame_planes(stale).is_none());
}

#[test]
fn malformed_chunk_leaves_session_usable() {
    let mut s = DecodeSession::open(true).expect("backend ready");
    let r = s.ingest(DecodeEvent::Malformed);
    assert!(matches!(r, Err(PipelineError::DecodeError)));

    // The failure is per-chunk: the next chunk decodes normally.
    let h = s
        .ingest(DecodeEvent::FrameReady(tiny_frame()))
        .expect("session survived the malformed chunk")
        .expect("one handle");
    assert!(s.frame_planes(h).is_some());
}
