use phonecam::convert::{convert, LANE_WIDTH};
use phonecam::error::PipelineError;

#[test]
fn interleave_exact_small_frame() {
    // 2x2 frame, tightly packed planes: one macropixel per row.
    let y = vec![1u8, 2, 3, 4];
    let u = vec![5u8];
    let v = vec![7u8];
    let out = convert(&y, &u, &v, 2, 1, 1, 2, 2).expect("geometry is consistent");
    assert_eq!(out, vec![1, 5, 2, 7, 3, 5, 4, 7]);
}

#[test]
fn luma_round_trip_even_and_odd_samples() {
    // 4x2 frame, tightly packed: output byte 4*i is the i-th even luma
    // sample and 4*i + 2 the i-th odd one.
    let y: Vec<u8> = (10..18).collect();
    let u = vec![90u8, 91, 92, 93];
    let v = vec![80u8, 81, 82, 83];
    let out = convert(&y, &u, &v, 4, 2, 2, 4, 2).expect("geometry is consistent");
    assert_eq!(out.len(), 16);
    for i in 0..4 {
        assert_eq!(out[4 * i], y[2 * i]);
        assert_eq!(out[4 * i + 2], y[2 * i + 1]);
    }
}

#[test]
fn all_zero_input_gives_all_zero_packed_frame() {
    // Width a multiple of the lane width.
    let w: usize = 2 * LANE_WIDTH;
    let h: usize = 2;
    let y = vec![0u8; w * h];
    let u = vec![0u8; (w / 2) * (h / 2)];
    let v = vec![0u8; (w / 2) * (h / 2)];
    let out = convert(&y, &u, &v, w, w / 2, w / 2, w, h).expect("geometry is consistent");
    assert_eq!(out.len(), w * h * 2);
    assert!(out.iter().all(|&b| b == 0));
}

#[test]
fn trailing_columns_carry_real_samples() {
    // Width 66 is no multiple of the lane width: the two rightmost luma
    // columns fall outside every full vector lane. Their output bytes must
    // still come from the input, not stay at any pre-write value.
    let w: usize = LANE_WIDTH + 2;
    let h: usize = 2;
    let mut y = vec![1u8; w * h];
    let mut u = vec![2u8; w / 2];
    let mut v = vec![3u8; w / 2];
    // Distinct values in the trailing macropixel column of each row.
    y[w - 2] = 0xA0;
    y[w - 1] = 0xA1;
    y[2 * w - 2] = 0xB0;
    y[2 * w - 1] = 0xB1;
    u[w / 2 - 1] = 0xC0;
    v[w / 2 - 1] = 0xD0;
    let out = convert(&y, &u, &v, w, w / 2, w / 2, w, h).expect("geometry is consistent");
    assert_eq!(out.len(), w * h * 2);
    // Row 0, last macropixel.
    let base0: usize = 4 * (w / 2 - 1);
    assert_eq!(out[base0], 0xA0);
    assert_eq!(out[base0 + 1], 0xC0);
    assert_eq!(out[base0 + 2], 0xA1);
    assert_eq!(out[base0 + 3], 0xD0);
    // Row 1, last macropixel shares the same chroma row.
    let base1: usize = w * 2 + 4 * (w / 2 - 1);
    assert_eq!(out[base1], 0xB0);
    assert_eq!(out[base1 + 1], 0xC0);
    assert_eq!(out[base1 + 2], 0xB1);
    assert_eq!(out[base1 + 3], 0xD0);
}

#[test]
fn strides_wider_than_width_are_honored() {
    // Luma rows padded to 6 bytes for a width of 4: the padding bytes 0xEE
    // must never reach the output.
    let y = vec![
        10, 11, 12, 13, 0xEE, 0xEE, //
        20, 21, 22, 23, 0xEE, 0xEE,
    ];
    let u = vec![40u8, 41, 0xEE];
    let v = vec![50u8, 51, 0xEE];
    let out = convert(&y, &u, &v, 6, 3, 3, 4, 2).expect("geometry is consistent");
    assert_eq!(
        out,
        vec![
            10, 40, 11, 50, 12, 41, 13, 51, //
            20, 40, 21, 50, 22, 41, 23, 51,
        ]
    );
}

#[test]
fn odd_width_is_rejected() {
    let r = convert(&[0u8; 9], &[0u8; 4], &[0u8; 4], 3, 2, 2, 3, 2);
    assert_eq!(r, Err(PipelineError::ConvertError));
}

#[test]
fn odd_height_is_rejected() {
    let r = convert(&[0u8; 6], &[0u8; 2], &[0u8; 2], 2, 1, 1, 2, 3);
    assert_eq!(r, Err(PipelineError::ConvertError));
}

#[test]
fn short_luma_plane_is_rejected() {
    let r = convert(&[0u8; 3], &[0u8; 1], &[0u8; 1], 2, 1, 1, 2, 2);
    assert_eq!(r, Err(PipelineError::ConvertError));
}

#[test]
fn short_chroma_plane_is_rejected() {
    let r = convert(&[0u8; 4], &[0u8; 0], &[0u8; 1], 2, 1, 1, 2, 2);
    assert_eq!(r, Err(PipelineError::ConvertError));
}

#[test]
fn stride_below_width_is_rejected() {
    let r = convert(&[0u8; 16], &[0u8; 4], &[0u8; 4], 3, 2, 2, 4, 2);
    assert_eq!(r, Err(PipelineError::ConvertError));
}

#[test]
fn empty_frame_converts_to_empty_output() {
    let out = convert(&[], &[], &[], 0, 0, 0, 0, 0).expect("empty geometry is consistent");
    assert!(out.is_empty());
}
