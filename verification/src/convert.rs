//! Planar-to-packed pixel-format conversion. Three 4:2:0 subsampled planes
//! — full-resolution luma and two half-resolution chroma planes, each with
//! its own row stride — become one packed plane of four-byte macropixels,
//! `[Y_even, U, Y_odd, V]`, row-major with no inter-row padding.
//!
//! The contract pins every output byte, so the columns at the right edge of
//! a width that is not a multiple of the vector lane width are covered like
//! any others: nothing in the output is ever left at its pre-write value.

use vstd::prelude::*;

use vstd::arithmetic::div_mod::lemma_fundamental_div_mod_converse;
use vstd::arithmetic::mul::lemma_mul_inequality;

use crate::error::PipelineError;

verus! {

/// Luma samples consumed per iteration of a vectorized conversion loop; a
/// width that is no multiple of this leaves trailing columns for the scalar
/// pass.
pub const LANE_WIDTH: usize = 64;

/// Number of bytes the packed output holds for a `w` by `h` frame: two per
/// pixel.
pub open spec fn packed_len(w: int, h: int) -> int {
    w * h * 2
}

/// The input planes are consistent with the stated geometry: both dimensions
/// even (4:2:0 halves each), every stride at least the row's logical width,
/// each plane long enough for its last row, and the packed output size
/// representable.
pub open spec fn plane_geometry_ok(
    y_len: int,
    u_len: int,
    v_len: int,
    ys: int,
    us: int,
    vs: int,
    w: int,
    h: int,
) -> bool {
    &&& w >= 0
    &&& h >= 0
    &&& w % 2 == 0
    &&& h % 2 == 0
    &&& ys >= w
    &&& us >= w / 2
    &&& vs >= w / 2
    &&& h > 0 ==> y_len >= ys * (h - 1) + w
    &&& h > 0 ==> u_len >= us * (h / 2 - 1) + w / 2
    &&& h > 0 ==> v_len >= vs * (h / 2 - 1) + w / 2
    &&& packed_len(w, h) <= usize::MAX
}

/// The input sample that position `k` of the packed output carries. Each
/// macropixel `m` covers two luma samples of row `m / (w/2)` at macropixel
/// column `m % (w/2)`, and the chroma pair shared by that row pair.
pub open spec fn packed_byte(
    y: Seq<u8>,
    u: Seq<u8>,
    v: Seq<u8>,
    ys: int,
    us: int,
    vs: int,
    w: int,
    k: int,
) -> u8 {
    let m = k / 4;
    let b = k % 4;
    let r = m / (w / 2);
    let c = m % (w / 2);
    if b == 0 {
        y[r * ys + 2 * c]
    } else if b == 1 {
        u[(r / 2) * us + c]
    } else if b == 2 {
        y[r * ys + 2 * c + 1]
    } else {
        v[(r / 2) * vs + c]
    }
}

/// The whole packed frame: `w * h * 2` bytes, each given by `packed_byte`.
pub open spec fn packed_frame(
    y: Seq<u8>,
    u: Seq<u8>,
    v: Seq<u8>,
    ys: int,
    us: int,
    vs: int,
    w: int,
    h: int,
) -> Seq<u8> {
    Seq::new((packed_len(w, h)) as nat, |k: int| packed_byte(y, u, v, ys, us, vs, w, k))
}

/// A row-start offset plus a macropixel column is the macropixel's flat
/// position, four output bytes per macropixel.
proof fn lemma_macropixel_base(row: int, i: int, hw: int)
    ensures
        row * (2 * hw) * 2 + i * 4 == 4 * (row * hw + i),
{
    assert(row * (2 * hw) * 2 + i * 4 == 4 * (row * hw + i)) by (nonlinear_arith);
}

/// Finishing the macropixels of one row advances the output by exactly one
/// packed row.
proof fn lemma_row_advance(row: int, hw: int)
    ensures
        row * (2 * hw) * 2 + hw * 4 == (row + 1) * (2 * hw) * 2,
{
    assert(row * (2 * hw) * 2 + hw * 4 == (row + 1) * (2 * hw) * 2) by (nonlinear_arith);
}

/// Every sample index that `packed_byte` reads for a macropixel at row `r`,
/// macropixel column `c`, lies inside its plane.
proof fn lemma_sample_bounds(
    y_len: int,
    u_len: int,
    v_len: int,
    ys: int,
    us: int,
    vs: int,
    w: int,
    h: int,
    r: int,
    c: int,
)
    requires
        plane_geometry_ok(y_len, u_len, v_len, ys, us, vs, w, h),
        0 <= r < h,
        0 <= c < w / 2,
    ensures
        0 <= r * ys + 2 * c + 1 < y_len,
        0 <= (r / 2) * us + c < u_len,
        0 <= (r / 2) * vs + c < v_len,
{
    lemma_mul_inequality(r, h - 1, ys);
    lemma_mul_inequality(r / 2, h / 2 - 1, us);
    lemma_mul_inequality(r / 2, h / 2 - 1, vs);
    lemma_mul_inequality(0, r, ys);
    lemma_mul_inequality(0, r / 2, us);
    lemma_mul_inequality(0, r / 2, vs);
}

/// Law: the interleave places the macropixel of row `r`, macropixel column
/// `c`, at offset `r*w*2 + 4*c` of the packed frame, with its four bytes
/// drawn from the input samples `[Y_even, U, Y_odd, V]`. This covers every
/// column, so the trailing columns of a width that is not a multiple of the
/// lane width carry real input samples too.
pub proof fn lemma_packed_macropixel(
    y: Seq<u8>,
    u: Seq<u8>,
    v: Seq<u8>,
    ys: int,
    us: int,
    vs: int,
    w: int,
    h: int,
    r: int,
    c: int,
)
    requires
        plane_geometry_ok(y.len() as int, u.len() as int, v.len() as int, ys, us, vs, w, h),
        0 <= r < h,
        0 <= c < w / 2,
    ensures
        ({
            let frame = packed_frame(y, u, v, ys, us, vs, w, h);
            let base = r * w * 2 + 4 * c;
            &&& 0 <= base && base + 3 < frame.len()
            &&& frame[base] == y[r * ys + 2 * c]
            &&& frame[base + 1] == u[(r / 2) * us + c]
            &&& frame[base + 2] == y[r * ys + 2 * c + 1]
            &&& frame[base + 3] == v[(r / 2) * vs + c]
        }),
{
    let m = r * (w / 2) + c;
    let base = r * w * 2 + 4 * c;
    assert(w == 2 * (w / 2));
    lemma_macropixel_base(r, c, w / 2);
    assert(base == 4 * m);
    assert(0 <= m) by {
        lemma_mul_inequality(0, r, w / 2);
    }
    assert(4 * m + 3 < packed_len(w, h)) by {
        lemma_mul_inequality(r, h - 1, w / 2);
        assert((h - 1) * (w / 2) + (w / 2) == h * (w / 2)) by (nonlinear_arith);
        assert(4 * (h * (w / 2)) == (2 * (w / 2)) * h * 2) by (nonlinear_arith);
    }
    lemma_fundamental_div_mod_converse(m, w / 2, r, c);
    lemma_fundamental_div_mod_converse(base, 4, m, 0);
    lemma_fundamental_div_mod_converse(base + 1, 4, m, 1);
    lemma_fundamental_div_mod_converse(base + 2, 4, m, 2);
    lemma_fundamental_div_mod_converse(base + 3, 4, m, 3);
}

/// Law: for a width that is not a multiple of the lane width, every output
/// byte of the trailing columns — the macropixels to the right of the last
/// full vector lane — is derived from real input samples, never left at a
/// pre-write value.
pub proof fn lemma_trailing_columns_covered(
    y: Seq<u8>,
    u: Seq<u8>,
    v: Seq<u8>,
    ys: int,
    us: int,
    vs: int,
    w: int,
    h: int,
    r: int,
    c: int,
)
    requires
        plane_geometry_ok(y.len() as int, u.len() as int, v.len() as int, ys, us, vs, w, h),
        w % (LANE_WIDTH as int) != 0,
        0 <= r < h,
        (w - w % (LANE_WIDTH as int)) / 2 <= c < w / 2,
    ensures
        ({
            let frame = packed_frame(y, u, v, ys, us, vs, w, h);
            let base = r * w * 2 + 4 * c;
            &&& frame[base] == y[r * ys + 2 * c]
            &&& frame[base + 1] == u[(r / 2) * us + c]
            &&& frame[base + 2] == y[r * ys + 2 * c + 1]
            &&& frame[base + 3] == v[(r / 2) * vs + c]
        }),
{
    lemma_packed_macropixel(y, u, v, ys, us, vs, w, h, r, c);
}

/// Law (interleave round trip): numbering luma pairs `i` row-major across
/// the frame, output byte `4*i` is the i-th even luma sample and output
/// byte `4*i + 2` is the i-th odd luma sample, for every valid `i`.
pub proof fn lemma_luma_round_trip(
    y: Seq<u8>,
    u: Seq<u8>,
    v: Seq<u8>,
    ys: int,
    us: int,
    vs: int,
    w: int,
    h: int,
    i: int,
)
    requires
        plane_geometry_ok(y.len() as int, u.len() as int, v.len() as int, ys, us, vs, w, h),
        0 <= i < h * (w / 2),
    ensures
        ({
            let frame = packed_frame(y, u, v, ys, us, vs, w, h);
            let r = i / (w / 2);
            let c = i % (w / 2);
            &&& 0 <= 4 * i && 4 * i + 2 < frame.len()
            &&& frame[4 * i] == y[r * ys + 2 * c]
            &&& frame[4 * i + 2] == y[r * ys + 2 * c + 1]
        }),
{
    assert(w / 2 > 0) by {
        if w / 2 <= 0 {
            assert(h * (w / 2) <= 0) by (nonlinear_arith)
                requires
                    h >= 0,
                    w / 2 <= 0,
            ;
        }
    }
    let r = i / (w / 2);
    let c = i % (w / 2);
    assert(i < (w / 2) * h) by (nonlinear_arith)
        requires
            i < h * (w / 2),
    ;
    vstd::arithmetic::div_mod::lemma_multiply_divide_lt(i, w / 2, h);
    vstd::arithmetic::div_mod::lemma_fundamental_div_mod(i, w / 2);
    assert(i == r * (w / 2) + c) by (nonlinear_arith)
        requires
            i == (w / 2) * r + c,
    ;
    lemma_packed_macropixel(y, u, v, ys, us, vs, w, h, r, c);
    assert(r * w * 2 + 4 * c == 4 * i) by {
        assert(w == 2 * (w / 2));
        lemma_macropixel_base(r, c, w / 2);
    }
}

/// Law: an all-zero source of any supported geometry converts to an all-zero
/// packed frame of exactly `w * h * 2` bytes — in particular for every width
/// that is a multiple of the lane width.
pub proof fn lemma_convert_all_zero(
    y: Seq<u8>,
    u: Seq<u8>,
    v: Seq<u8>,
    ys: int,
    us: int,
    vs: int,
    w: int,
    h: int,
)
    requires
        plane_geometry_ok(y.len() as int, u.len() as int, v.len() as int, ys, us, vs, w, h),
        forall|j: int| 0 <= j < y.len() ==> y[j] == 0,
        forall|j: int| 0 <= j < u.len() ==> u[j] == 0,
        forall|j: int| 0 <= j < v.len() ==> v[j] == 0,
    ensures
        packed_frame(y, u, v, ys, us, vs, w, h).len() == w * h * 2,
        forall|k: int|
            0 <= k < w * h * 2 ==> #[trigger] packed_frame(y, u, v, ys, us, vs, w, h)[k] == 0,
{
    let frame = packed_frame(y, u, v, ys, us, vs, w, h);
    assert forall|k: int| 0 <= k < w * h * 2 implies frame[k] == 0 by {
        assert(w > 0 && h > 0) by {
            if w <= 0 || h <= 0 {
                assert(w * h * 2 <= 0) by (nonlinear_arith)
                    requires
                        w >= 0,
                        h >= 0,
                        w <= 0 || h <= 0,
                ;
            }
        }
        let m = k / 4;
        let b = k % 4;
        let r = m / (w / 2);
        let c = m % (w / 2);
        assert(0 <= m && m < h * (w / 2)) by {
            assert(4 * (h * (w / 2)) == w * h * 2) by (nonlinear_arith)
                requires
                    w == 2 * (w / 2),
            ;
        }
        vstd::arithmetic::div_mod::lemma_multiply_divide_lt(m, w / 2, h);
        assert(m < (w / 2) * h) by (nonlinear_arith)
            requires
                m < h * (w / 2),
        ;
        lemma_sample_bounds(y.len() as int, u.len() as int, v.len() as int, ys, us, vs, w, h, r, c);
    }
}

/// Converts three 4:2:0 planes into one packed `[Y_even, U, Y_odd, V]`
/// plane. Pure: reads only its arguments. Succeeds exactly when the planes
/// are consistent with the stated geometry, and then every byte of the
/// result — trailing columns of a partial vector lane included — equals the
/// input sample `packed_frame` assigns it. Inconsistent geometry is
/// rejected up front, never silently truncated.
pub fn convert(
    y: &[u8],
    u: &[u8],
    v: &[u8],
    y_stride: usize,
    u_stride: usize,
    v_stride: usize,
    width: usize,
    height: usize,
) -> (result: Result<Vec<u8>, PipelineError>)
    ensures
        result is Ok <==> plane_geometry_ok(
            y@.len() as int,
            u@.len() as int,
            v@.len() as int,
            y_stride as int,
            u_stride as int,
            v_stride as int,
            width as int,
            height as int,
        ),
        result matches Ok(out) ==> out@ == packed_frame(
            y@,
            u@,
            v@,
            y_stride as int,
            u_stride as int,
            v_stride as int,
            width as int,
            height as int,
        ),
        result matches Err(e) ==> e == PipelineError::ConvertError,
{
    let y_len = y.len();
    let u_len = u.len();
    let v_len = v.len();
    let cols = width / 2;
    if width % 2 != 0 || height % 2 != 0 {
        return Err(PipelineError::ConvertError);
    }
    if y_stride < width || u_stride < cols || v_stride < cols {
        return Err(PipelineError::ConvertError);
    }
    if height > 0 {
        let y_need = match y_stride.checked_mul(height - 1) {
            Some(t) => t.checked_add(width),
            None => None,
        };
        match y_need {
            Some(n) => {
                if y_len < n {
                    return Err(PipelineError::ConvertError);
                }
            },
            None => {
                return Err(PipelineError::ConvertError);
            },
        }
        let chroma_last = height / 2 - 1;
        let u_need = match u_stride.checked_mul(chroma_last) {
            Some(t) => t.checked_add(cols),
            None => None,
        };
        match u_need {
            Some(n) => {
                if u_len < n {
                    return Err(PipelineError::ConvertError);
                }
            },
            None => {
                return Err(PipelineError::ConvertError);
            },
        }
        let v_need = match v_stride.checked_mul(chroma_last) {
            Some(t) => t.checked_add(cols),
            None => None,
        };
        match v_need {
            Some(n) => {
                if v_len < n {
                    return Err(PipelineError::ConvertError);
                }
            },
            None => {
                return Err(PipelineError::ConvertError);
            },
        }
    }
    let out_len = match width.checked_mul(height) {
        Some(t) => t.checked_mul(2),
        None => None,
    };
    let out_len = match out_len {
        Some(n) => n,
        None => {
            return Err(PipelineError::ConvertError);
        },
    };

    let ghost gy = y@;
    let ghost gu = u@;
    let ghost gv = v@;
    let ghost ysi = y_stride as int;
    let ghost usi = u_stride as int;
    let ghost vsi = v_stride as int;
    let ghost wi = width as int;
    let ghost hi = height as int;
    let ghost geo = plane_geometry_ok(
        gy.len() as int,
        gu.len() as int,
        gv.len() as int,
        ysi,
        usi,
        vsi,
        wi,
        hi,
    );
    proof {
        assert(geo);
    }

    let mut out: Vec<u8> = Vec::with_capacity(out_len);
    let mut row: usize = 0;
    while row < height
        invariant
            geo,
            geo == plane_geometry_ok(
                gy.len() as int,
                gu.len() as int,
                gv.len() as int,
                ysi,
                usi,
                vsi,
                wi,
                hi,
            ),
            gy == y@,
            gu == u@,
            gv == v@,
            ysi == y_stride as int,
            usi == u_stride as int,
            vsi == v_stride as int,
            wi == width as int,
            hi == height as int,
            cols == width / 2,
            y_len == y@.len(),
            u_len == u@.len(),
            v_len == v@.len(),
            row <= height,
            out@.len() == row * wi * 2,
            forall|k: int|
                0 <= k < out@.len() ==> out@[k] == packed_byte(gy, gu, gv, ysi, usi, vsi, wi, k),
        decreases height - row,
    {
        let half_row = row / 2;
        let mut i: usize = 0;
        proof {
            lemma_mul_inequality(row as int, hi - 1, ysi);
            lemma_mul_inequality(half_row as int, hi / 2 - 1, usi);
            lemma_mul_inequality(half_row as int, hi / 2 - 1, vsi);
        }
        while i < cols
            invariant
                geo,
                geo == plane_geometry_ok(
                    gy.len() as int,
                    gu.len() as int,
                    gv.len() as int,
                    ysi,
                    usi,
                    vsi,
                    wi,
                    hi,
                ),
                gy == y@,
                gu == u@,
                gv == v@,
                ysi == y_stride as int,
                usi == u_stride as int,
                vsi == v_stride as int,
                wi == width as int,
                hi == height as int,
                cols == width / 2,
                y_len == y@.len(),
                u_len == u@.len(),
                v_len == v@.len(),
                row < height,
                half_row == row / 2,
                i <= cols,
                (row as int) * ysi <= (hi - 1) * ysi,
                (half_row as int) * usi <= (hi / 2 - 1) * usi,
                (half_row as int) * vsi <= (hi / 2 - 1) * vsi,
                out@.len() == row * wi * 2 + i * 4,
                forall|k: int|
                    0 <= k < out@.len() ==> out@[k] == packed_byte(
                        gy,
                        gu,
                        gv,
                        ysi,
                        usi,
                        vsi,
                        wi,
                        k,
                    ),
            decreases cols - i,
        {
            let ghost m = (row as int) * (wi / 2) + i as int;
            let ghost base = out@.len() as int;
            proof {
                assert(wi == 2 * (wi / 2));
                lemma_macropixel_base(row as int, i as int, wi / 2);
                assert(base == 4 * m);
                lemma_fundamental_div_mod_converse(m, wi / 2, row as int, i as int);
            }
            let y_idx = row * y_stride + 2 * i;
            let u_idx = half_row * u_stride + i;
            let v_idx = half_row * v_stride + i;
            out.push(y[y_idx]);
            out.push(u[u_idx]);
            out.push(y[y_idx + 1]);
            out.push(v[v_idx]);
            proof {
                assert(half_row as int == (m / (wi / 2)) / 2);
                assert forall|k: int| base <= k < base + 4 implies out@[k] == packed_byte(
                    gy,
                    gu,
                    gv,
                    ysi,
                    usi,
                    vsi,
                    wi,
                    k,
                ) by {
                    lemma_fundamental_div_mod_converse(k, 4, m, k - 4 * m);
                }
            }
            i = i + 1;
        }
        proof {
            assert(wi == 2 * (wi / 2));
            lemma_row_advance(row as int, wi / 2);
            assert(row * wi * 2 + (wi / 2) * 4 == (row + 1) * wi * 2);
        }
        row = row + 1;
    }
    proof {
        assert(out@.len() == hi * wi * 2);
        assert(hi * wi * 2 == packed_len(wi, hi)) by (nonlinear_arith);
        assert(out@ =~= packed_frame(gy, gu, gv, ysi, usi, vsi, wi, hi));
    }
    Ok(out)
}

} // verus!
