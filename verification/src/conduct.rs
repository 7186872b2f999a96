//! Geometry normalization of the resistance channel and depth-weighted
//! conductivity averaging across a segment.
//!
//! `adjust_to_height` turns a specified thermal-insulance constant into an
//! absolute resistance for the installed thickness: `r' = h / r * 1000`.
//! A zero resistance stays untouched as "no resistance contribution", and a
//! nonzero one is never turned into that sentinel: when the quotient would
//! round down to zero, the conversion clamps it to the smallest stored unit.
//!
//! `avg_cp_k` estimates the effective resistance and capacity across a
//! segment between its hot-side and cold-side temperatures.  A reference
//! sample near the hot side fixes a flux constant `q_ref`; every sample then
//! gets an implied depth weight `d = q_ref * k / t`, and each output grid
//! point averages the `d`-weighted resistance and capacity over the samples
//! whose own temperature lies between the point's cold-side fraction and the
//! point itself.  Degenerate inputs (no reference sample near the hot side, a
//! zero reference resistance, a zero segment thickness, an empty weight
//! window) leave the input unchanged.

use crate::data::{Data, DataTriplet};
use crate::fixed::{
    fixed_add, fixed_div, fixed_mul, fixed_muldiv, fx_add, fx_div, fx_mul, fx_muldiv, sat,
    wide_mul, VAL_MAX,
};
use vstd::arithmetic::mul::lemma_mul_upper_bound;
use vstd::prelude::*;

verus! {

/// Unit conversion for the insulance-to-resistance step: the factor `1000`
/// of the physical formula times the storage scale.
pub const RES_FACTOR: u64 = 1_000_000;

/// Half-width of the hot-side search band: 25 degrees in stored units,
/// matching the reference grid's step convention.
pub const TEMP_BAND: u64 = 25_000;

/// Resistance for the installed thickness: `height / r * 1000`.  A zero
/// resistance (or a zero height) stays zero; for nonzero inputs the result
/// is never zero, since `0` encodes "no resistance contribution" and must be
/// propagated, not manufactured: a quotient that would round down to zero is
/// clamped to the smallest stored unit.
pub open spec fn insul_to_res(height: u64, r: u64) -> u64 {
    let q = fx_muldiv(height, RES_FACTOR, r);
    if height != 0 && r != 0 && q == 0 {
        1
    } else {
        q
    }
}

/// The executable form of `insul_to_res`.
fn convert_insulance(height: u64, r: u64) -> (out: u64)
    ensures
        out == insul_to_res(height, r),
{
    let q: u64 = fixed_muldiv(height, RES_FACTOR, r);
    if height != 0 && r != 0 && q == 0 {
        1
    } else {
        q
    }
}

/// Convert every sample's specified insulance into an absolute resistance
/// for the installed height; all other fields pass through unchanged.  The
/// zero sentinel on the resistance channel is propagated and never
/// manufactured: for a nonzero height, an output resistance is zero exactly
/// when the input resistance was.
pub fn adjust_to_height(height: u64, data: &Vec<DataTriplet>) -> (out: Vec<DataTriplet>)
    ensures
        out@.len() == data@.len(),
        forall|i: int|
            0 <= i < out@.len() ==> out@[i] == (DataTriplet {
                temp_part: data@[i].temp_part,
                thermal_data: Data {
                    cp: data@[i].thermal_data.cp,
                    r_th: insul_to_res(height, data@[i].thermal_data.r_th),
                    e: data@[i].thermal_data.e,
                },
                temp_sub_part: data@[i].temp_sub_part,
            }),
        forall|i: int|
            0 <= i < out@.len() && height != 0 ==> (out@[i].thermal_data.r_th == 0
                <==> data@[i].thermal_data.r_th == 0),
{
    let n: usize = data.len();
    let mut out: Vec<DataTriplet> = Vec::new();
    let mut i: usize = 0;
    while i < n
        invariant
            i <= n,
            n == data@.len(),
            out@.len() == i,
            forall|m: int|
                0 <= m < i ==> out@[m] == (DataTriplet {
                    temp_part: data@[m].temp_part,
                    thermal_data: Data {
                        cp: data@[m].thermal_data.cp,
                        r_th: insul_to_res(height, data@[m].thermal_data.r_th),
                        e: data@[m].thermal_data.e,
                    },
                    temp_sub_part: data@[m].temp_sub_part,
                }),
        decreases n - i,
    {
        let row: DataTriplet = data[i];
        let r_new: u64 = convert_insulance(height, row.thermal_data.r_th);
        out.push(
            DataTriplet {
                temp_part: row.temp_part,
                thermal_data: Data {
                    cp: row.thermal_data.cp,
                    r_th: r_new,
                    e: row.thermal_data.e,
                },
                temp_sub_part: row.temp_sub_part,
            },
        );
        i = i + 1;
    }
    out
}

/// Whether a sample's own temperature lies within the hot-side search band.
pub open spec fn near_hot(own: u64, hot: u64) -> bool {
    hot <= own + TEMP_BAND && own <= hot + TEMP_BAND
}

/// Index of the first sample whose own temperature is near the hot side,
/// searching from `i`; `s.len()` when there is none.
pub open spec fn ref_index_from(s: Seq<DataTriplet>, hot: u64, i: int) -> int
    decreases s.len() - i,
{
    if i >= s.len() {
        s.len() as int
    } else if near_hot(s[i].temp_sub_part, hot) {
        i
    } else {
        ref_index_from(s, hot, i + 1)
    }
}

/// Conductivity implied by a sample's resistance: `length / r * 1000`, the
/// same clamped conversion as the resistance step.
pub open spec fn k_at(s: Seq<DataTriplet>, length: u64, i: int) -> u64 {
    insul_to_res(length, s[i].thermal_data.r_th)
}

/// Implied depth weight of a sample: `q_ref * k / t`, zero for a zero own
/// temperature or a zero conductivity.
pub open spec fn d_at(s: Seq<DataTriplet>, length: u64, q_ref: u64, i: int) -> u64 {
    fx_muldiv(q_ref, k_at(s, length, i), s[i].temp_sub_part)
}

/// Whether sample `i` contributes to output point `n`: its own temperature
/// sits between the point's cold-side fraction and the point itself (the
/// fraction `cold / hot` is compared by cross-multiplication).
pub open spec fn in_window(s: Seq<DataTriplet>, n: int, i: int, hot: u64, cold: u64) -> bool {
    &&& s[i].temp_sub_part * hot >= s[n].temp_sub_part * cold
    &&& s[i].temp_sub_part <= s[n].temp_sub_part
}

/// Windowed depth-weight sum for output point `n` over the first `i` samples.
pub open spec fn win_d(
    s: Seq<DataTriplet>,
    length: u64,
    q_ref: u64,
    hot: u64,
    cold: u64,
    n: int,
    i: int,
) -> u64
    decreases i,
{
    if i <= 0 {
        0
    } else {
        fx_add(
            win_d(s, length, q_ref, hot, cold, n, i - 1),
            if in_window(s, n, i - 1, hot, cold) {
                d_at(s, length, q_ref, i - 1)
            } else {
                0
            },
        )
    }
}

/// One sample's contribution to the windowed resistance sum: `d / k * 1000`.
pub open spec fn r_term(s: Seq<DataTriplet>, length: u64, q_ref: u64, i: int) -> u64 {
    fx_muldiv(d_at(s, length, q_ref, i), RES_FACTOR, k_at(s, length, i))
}

/// Windowed resistance sum for output point `n` over the first `i` samples.
pub open spec fn win_r(
    s: Seq<DataTriplet>,
    length: u64,
    q_ref: u64,
    hot: u64,
    cold: u64,
    n: int,
    i: int,
) -> u64
    decreases i,
{
    if i <= 0 {
        0
    } else {
        fx_add(
            win_r(s, length, q_ref, hot, cold, n, i - 1),
            if in_window(s, n, i - 1, hot, cold) {
                r_term(s, length, q_ref, i - 1)
            } else {
                0
            },
        )
    }
}

/// Windowed capacity sum for output point `n` over the first `i` samples:
/// each capacity weighted by its sample's depth weight.
pub open spec fn win_cp(
    s: Seq<DataTriplet>,
    length: u64,
    q_ref: u64,
    hot: u64,
    cold: u64,
    n: int,
    i: int,
) -> u64
    decreases i,
{
    if i <= 0 {
        0
    } else {
        fx_add(
            win_cp(s, length, q_ref, hot, cold, n, i - 1),
            if in_window(s, n, i - 1, hot, cold) {
                fx_mul(s[i - 1].thermal_data.cp, d_at(s, length, q_ref, i - 1))
            } else {
                0
            },
        )
    }
}

/// The averaged output row for point `n`: the windowed sums divided by the
/// windowed weight; the input row when the window carries no weight.
pub open spec fn avg_row(
    s: Seq<DataTriplet>,
    length: u64,
    q_ref: u64,
    hot: u64,
    cold: u64,
    n: int,
) -> DataTriplet {
    let dw = win_d(s, length, q_ref, hot, cold, n, s.len() as int);
    if dw == 0 {
        s[n]
    } else {
        DataTriplet {
            temp_part: s[n].temp_part,
            thermal_data: Data {
                cp: fx_div(win_cp(s, length, q_ref, hot, cold, n, s.len() as int), dw),
                r_th: sat(
                    win_r(s, length, q_ref, hot, cold, n, s.len() as int) * length / (dw as int),
                ),
                e: s[n].thermal_data.e,
            },
            temp_sub_part: s[n].temp_sub_part,
        }
    }
}

/// The whole averaged series, or the input itself in the degenerate cases.
pub open spec fn avg_series(s: Seq<DataTriplet>, length: u64, hot: u64, cold: u64) -> Seq<
    DataTriplet,
> {
    let ri = ref_index_from(s, hot, 0);
    if ri == s.len() {
        s
    } else if s[ri].thermal_data.r_th == 0 {
        s
    } else if insul_to_res(length, s[ri].thermal_data.r_th) == 0 {
        s
    } else {
        let q_ref = fx_div(s[ri].temp_sub_part, insul_to_res(length, s[ri].thermal_data.r_th));
        Seq::new(s.len(), |n: int| avg_row(s, length, q_ref, hot, cold, n))
    }
}

/// An unchanged copy of a mapped series.
fn copy_triplets(data: &Vec<DataTriplet>) -> (out: Vec<DataTriplet>)
    ensures
        out@ == data@,
{
    let n: usize = data.len();
    let mut out: Vec<DataTriplet> = Vec::new();
    let mut i: usize = 0;
    while i < n
        invariant
            i <= n,
            n == data@.len(),
            out@.len() == i,
            forall|m: int| 0 <= m < i ==> out@[m] == data@[m],
        decreases n - i,
    {
        out.push(data[i]);
        i = i + 1;
    }
    proof {
        assert(out@ =~= data@);
    }
    out
}

/// Whether a sample's own temperature is near the hot side (executable).
fn near_hot_exec(own: u64, hot: u64) -> (r: bool)
    ensures
        r == near_hot(own, hot),
{
    (hot as u128) <= (own as u128) + (TEMP_BAND as u128) && (own as u128) <= (hot as u128) + (
    TEMP_BAND as u128)
}

/// Average the conductivity and capacity across a segment of thickness
/// `lenght` between hot-side temperature `temp_max` and cold-side
/// temperature `temp_min`.
pub fn avg_cp_k(lenght: u64, data: &Vec<DataTriplet>, temp_max: u64, temp_min: u64) -> (out: Vec<
    DataTriplet,
>)
    ensures
        out@ == avg_series(data@, lenght, temp_max, temp_min),
{
    let n: usize = data.len();
    let mut ri: usize = 0;
    while ri < n && !near_hot_exec(data[ri].temp_sub_part, temp_max)
        invariant
            ri <= n,
            n == data@.len(),
            ref_index_from(data@, temp_max, 0) == ref_index_from(data@, temp_max, ri as int),
        decreases n - ri,
    {
        ri = ri + 1;
    }
    if ri == n {
        return copy_triplets(data);
    }
    let r_ref: u64 = data[ri].thermal_data.r_th;
    if r_ref == 0 {
        return copy_triplets(data);
    }
    let k_ref: u64 = convert_insulance(lenght, r_ref);
    if k_ref == 0 {
        return copy_triplets(data);
    }
    let q_ref: u64 = fixed_div(data[ri].temp_sub_part, k_ref);
    let ghost s: Seq<DataTriplet> = data@;
    let mut out: Vec<DataTriplet> = Vec::new();
    let mut m: usize = 0;
    while m < n
        invariant
            m <= n,
            n == s.len(),
            s == data@,
            out@.len() == m,
            forall|p: int|
                0 <= p < m ==> out@[p] == avg_row(s, lenght, q_ref, temp_max, temp_min, p),
        decreases n - m,
    {
        let own_n: u64 = data[m].temp_sub_part;
        let lo_bound: u128 = wide_mul(own_n, temp_min);
        let mut dw: u64 = 0;
        let mut rw: u64 = 0;
        let mut cw: u64 = 0;
        let mut i: usize = 0;
        while i < n
            invariant
                i <= n,
                m < n,
                n == s.len(),
                s == data@,
                own_n == s[m as int].temp_sub_part,
                lo_bound == s[m as int].temp_sub_part * temp_min,
                dw == win_d(s, lenght, q_ref, temp_max, temp_min, m as int, i as int),
                rw == win_r(s, lenght, q_ref, temp_max, temp_min, m as int, i as int),
                cw == win_cp(s, lenght, q_ref, temp_max, temp_min, m as int, i as int),
            decreases n - i,
        {
            let own_i: u64 = data[i].temp_sub_part;
            let hi_side: u128 = wide_mul(own_i, temp_max);
            if hi_side >= lo_bound && own_i <= own_n {
                let k_i: u64 = convert_insulance(lenght, data[i].thermal_data.r_th);
                let d_i: u64 = fixed_muldiv(q_ref, k_i, own_i);
                let r_i: u64 = fixed_muldiv(d_i, RES_FACTOR, k_i);
                let c_i: u64 = fixed_mul(data[i].thermal_data.cp, d_i);
                dw = fixed_add(dw, d_i);
                rw = fixed_add(rw, r_i);
                cw = fixed_add(cw, c_i);
            } else {
                dw = fixed_add(dw, 0);
                rw = fixed_add(rw, 0);
                cw = fixed_add(cw, 0);
            }
            i = i + 1;
        }
        if dw == 0 {
            out.push(data[m]);
        } else {
            let cp_out: u64 = fixed_div(cw, dw);
            proof {
                lemma_mul_upper_bound(rw as int, u64::MAX as int, lenght as int, u64::MAX as int);
            }
            let num: u128 = (rw as u128) * (lenght as u128);
            let q: u128 = num / (dw as u128);
            let r_out: u64 = if q > VAL_MAX as u128 {
                VAL_MAX
            } else {
                q as u64
            };
            out.push(
                DataTriplet {
                    temp_part: data[m].temp_part,
                    thermal_data: Data { cp: cp_out, r_th: r_out, e: data[m].thermal_data.e },
                    temp_sub_part: data[m].temp_sub_part,
                },
            );
        }
        m = m + 1;
    }
    proof {
        assert(out@ =~= avg_series(data@, lenght, temp_max, temp_min));
    }
    out
}

} // verus!
