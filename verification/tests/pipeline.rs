use phonecam::decode::{DecodeEvent, DecodedFrame};
use phonecam::error::PipelineError;
use phonecam::pipeline::{Pipeline, SubmitOutcome};

fn frame_with_luma(a: u8, b: u8, c: u8, d: u8) -> DecodedFrame {
    DecodedFrame {
        y: vec![a, b, c, d],
        u: vec![5],
        v: vec![7],
        y_stride: 2,
        u_stride: 1,
        v_stride: 1,
        width: 2,
        height: 2,
    }
}

#[test]
fn startup_failures_are_fatal_and_named() {
    assert!(matches!(
        Pipeline::new(false, true, true, 16),
        Err(PipelineError::InitError)
    ));
    assert!(matches!(
        Pipeline::new(true, false, true, 16),
        Err(PipelineError::DeviceUnavailable)
    ));
    assert!(matches!(
        Pipeline::new(true, true, false, 16),
        Err(PipelineError::MapFailed)
    ));
    assert!(Pipeline::new(true, true, true, 16).is_ok());
}

#[test]
fn no_frame_is_success_with_nothing_written() {
    let mut p = Pipeline::new(true, true, true, 8).expect("startup");
    let r = p.submit(DecodeEvent::NeedMoreData, 2, 2);
    assert_eq!(r, Ok(SubmitOutcome::NoFrame));
    assert_eq!(p.surface_bytes(), &vec![0u8; 8]);
}

#[test]
fn frame_is_converted_and_delivered() {
    let mut p = Pipeline::new(true, true, true, 10).expect("startup");
    let r = p.submit(DecodeEvent::FrameReady(frame_with_luma(1, 2, 3, 4)), 2, 2);
    assert_eq!(r, Ok(SubmitOutcome::FrameWritten));
    // Eight packed bytes at offset zero; the tail keeps its prior value.
    assert_eq!(p.surface_bytes(), &vec![1, 5, 2, 7, 3, 5, 4, 7, 0, 0]);
}

#[test]
fn last_writer_wins_at_frame_granularity() {
    let mut p = Pipeline::new(true, true, true, 8).expect("startup");
    let first = p.submit(DecodeEvent::FrameReady(frame_with_luma(1, 1, 1, 1)), 2, 2);
    assert_eq!(first, Ok(SubmitOutcome::FrameWritten));
    let second = p.submit(DecodeEvent::FrameReady(frame_with_luma(9, 8, 7, 6)), 2, 2);
    assert_eq!(second, Ok(SubmitOutcome::FrameWritten));
    // The region holds the full, untorn output of the later frame alone.
    assert_eq!(p.surface_bytes(), &vec![9, 5, 8, 7, 7, 5, 6, 7]);
}

#[test]
fn decode_failure_is_per_chunk_not_fatal() {
    let mut p = Pipeline::new(true, true, true, 8).expect("startup");
    let r = p.submit(DecodeEvent::Malformed, 2, 2);
    assert_eq!(r, Err(PipelineError::DecodeError));
    assert_eq!(p.surface_bytes(), &vec![0u8; 8]);

    // The session and surface remain usable for the next chunk.
    let next = p.submit(DecodeEvent::FrameReady(frame_with_luma(1, 2, 3, 4)), 2, 2);
    assert_eq!(next, Ok(SubmitOutcome::FrameWritten));
}

#[test]
fn inconsistent_geometry_is_rejected_without_writing() {
    let mut p = Pipeline::new(true, true, true, 8).expect("startup");
    // Caller-supplied dimensions far beyond what the planes can hold.
    let r = p.submit(DecodeEvent::FrameReady(frame_with_luma(1, 2, 3, 4)), 64, 64);
    assert_eq!(r, Err(PipelineError::ConvertError));
    assert_eq!(p.surface_bytes(), &vec![0u8; 8]);
}

#[test]
fn oversize_frame_is_truncated_to_the_region() {
    let mut p = Pipeline::new(true, true, true, 3).expect("startup");
    let r = p.submit(DecodeEvent::FrameReady(frame_with_luma(1, 2, 3, 4)), 2, 2);
    assert_eq!(r, Ok(SubmitOutcome::FrameWritten));
    assert_eq!(p.surface_bytes(), &vec![1, 5, 2]);
}
