use phonecam::device::{open_outcome, OutputSurface};
use phonecam::error::PipelineError;

#[test]
fn unopenable_path_reports_device_unavailable() {
    assert_eq!(open_outcome(false, false), Err(PipelineError::DeviceUnavailable));
    // Whatever the mapping stage would have said, the open failure wins.
    assert_eq!(open_outcome(false, true), Err(PipelineError::DeviceUnavailable));
}

#[test]
fn unmappable_region_reports_map_failed() {
    assert_eq!(open_outcome(true, false), Err(PipelineError::MapFailed));
}

#[test]
fn open_and_map_succeed_together() {
    assert_eq!(open_outcome(true, true), Ok(()));
}

#[test]
fn fresh_surface_is_zeroed_at_its_mapped_size() {
    let s = OutputSurface::new(6);
    assert_eq!(s.bytes(), &vec![0u8; 6]);
}

#[test]
fn write_copies_at_offset_zero_and_keeps_the_tail() {
    let mut s = OutputSurface::new(6);
    s.write_frame(&[9, 9]);
    assert_eq!(s.bytes(), &vec![9, 9, 0, 0, 0, 0]);
    s.write_frame(&[1, 2, 3]);
    assert_eq!(s.bytes(), &vec![1, 2, 3, 0, 0, 0]);
}

#[test]
fn oversize_frame_is_truncated_to_the_mapped_size() {
    let mut s = OutputSurface::new(4);
    s.write_frame(&[1, 2, 3, 4, 5, 6]);
    assert_eq!(s.bytes(), &vec![1, 2, 3, 4]);
}
