use phonecam::metrics::{ServerMetrics, DEFAULT_HEIGHT, DEFAULT_WIDTH};

#[test]
fn fresh_metrics_have_defaults() {
    let m = ServerMetrics::new();
    let s = m.snapshot();
    assert_eq!(s.packet_count, 0);
    assert_eq!(s.bytes_received, 0);
    assert_eq!(s.width, DEFAULT_WIDTH);
    assert_eq!(s.height, DEFAULT_HEIGHT);
    assert_eq!(DEFAULT_WIDTH, 1280);
    assert_eq!(DEFAULT_HEIGHT, 720);
}

#[test]
fn record_packet_counts_packets_and_bytes() {
    let mut m = ServerMetrics::new();
    m.record_packet(100);
    m.record_packet(250);
    let s = m.snapshot();
    assert_eq!(s.packet_count, 2);
    assert_eq!(s.bytes_received, 350);
    assert_eq!(s.width, DEFAULT_WIDTH);
}

#[test]
fn byte_counter_wraps_on_overflow() {
    let mut m = ServerMetrics::new();
    m.record_packet(u64::MAX);
    m.record_packet(3);
    let s = m.snapshot();
    assert_eq!(s.packet_count, 2);
    assert_eq!(s.bytes_received, 2);
}

#[test]
fn update_resolution_takes_effect_on_next_snapshot() {
    let mut m = ServerMetrics::new();
    m.record_packet(10);
    m.update_resolution(1920, 1080);
    let s = m.snapshot();
    assert_eq!(s.width, 1920);
    assert_eq!(s.height, 1080);
    assert_eq!(s.packet_count, 1);
    assert_eq!(s.bytes_received, 10);
}
