use phonecam::protocol::{Header, FrameType, HEADER_SIZE, MAGIC_0, MAGIC_1};

#[test]
fn parse_reads_every_field() {
    let data = [0x50, 0x43, 0x01, 0x02, 0x00, 0x00, 0x01, 0x00];
    let h = Header::parse(&data).expect("valid header");
    assert_eq!(h.magic, [MAGIC_0, MAGIC_1]);
    assert_eq!(h.frame_type, 0x01);
    assert_eq!(h.flags, 0x02);
    assert_eq!(h.payload_length, 256);
}

#[test]
fn payload_length_is_big_endian() {
    let data = [0x50, 0x43, 0x00, 0x00, 0x12, 0x34, 0x56, 0x78];
    let h = Header::parse(&data).expect("valid header");
    assert_eq!(h.payload_length, 0x1234_5678);
}

#[test]
fn short_input_is_rejected() {
    assert!(Header::parse(&[0x50, 0x43, 0x00]).is_none());
    assert!(Header::parse(&[]).is_none());
    assert_eq!(HEADER_SIZE, 8);
}

#[test]
fn wrong_magic_is_rejected() {
    let data = [0x51, 0x43, 0x00, 0x00, 0x00, 0x00, 0x00, 0x00];
    assert!(Header::parse(&data).is_none());
    let data = [0x50, 0x44, 0x00, 0x00, 0x00, 0x00, 0x00, 0x00];
    assert!(Header::parse(&data).is_none());
}

#[test]
fn trailing_payload_bytes_are_ignored_by_parse() {
    let data = [0x50, 0x43, 0x00, 0x00, 0x00, 0x00, 0x00, 0x02, 0xAA, 0xBB];
    let h = Header::parse(&data).expect("valid header");
    assert_eq!(h.payload_length, 2);
}

#[test]
fn frame_kinds_carry_their_wire_values() {
    assert_eq!(FrameType::P.code(), 0x00);
    assert_eq!(FrameType::I.code(), 0x01);
    assert_eq!(FrameType::B.code(), 0x02);
}
