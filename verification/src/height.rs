//! Height interpolation: blend an assembly's stored min- and max-thickness
//! variants to a requested thickness.
//!
//! The blend factor is the requested height's position between the stored
//! thickness bounds, in storage scale.  Only factors strictly inside the
//! band `(0.001, 0.999)` are interpolated; outside it the bound snaps to the
//! nearer boundary variant instead, avoiding near-degenerate divisions: at
//! or below the band the requested bound takes the min-variant values, at or
//! above it the max-variant values.  A sentinel request collapses one bound
//! onto the other variant's data directly.  The min bound is updated first;
//! the max bound then takes or blends the already-updated min values, while
//! both factors are measured against the originally stored bounds.  When the
//! stored bounds themselves are degenerate (max at or below min) no factor
//! exists and the stored variant is kept.
//!
//! Whenever one bound takes the other variant's data, only the capacity and
//! resistance channels move: each bound keeps its own temperature axis and
//! its own emissivity.

use crate::data::{Data, DataPair, HeightRequest, TPS};
use crate::fixed::{fixed_blend, fx_blend, sat, SCALE, VAL_MAX};
use vstd::arithmetic::div_mod::lemma_div_multiples_vanish;
use vstd::arithmetic::mul::lemma_mul_upper_bound;
use vstd::prelude::*;

verus! {

/// Position of height `h` between the stored bounds, in storage scale;
/// zero when the bounds are degenerate or `h` lies at or below the lower
/// bound.
pub open spec fn height_factor(h: u64, tmin: u64, tmax: u64) -> u64 {
    if tmax <= tmin || h <= tmin {
        0
    } else {
        sat((h - tmin) * SCALE / ((tmax - tmin) as int))
    }
}

/// Whether a factor lies strictly inside the interpolation band.
pub open spec fn in_band(f: u64) -> bool {
    1 <= f && f <= SCALE - 2
}

/// Whether a factor lies at or above the band's upper edge: the request
/// snaps to the max variant.
pub open spec fn above_band(f: u64) -> bool {
    f >= SCALE - 1
}

/// A series carrying one variant's capacity and resistance on another
/// variant's temperature axis, with that variant's own emissivity.
pub open spec fn copy_channels(axis_e: Seq<DataPair>, cp_r: Seq<DataPair>) -> Seq<DataPair> {
    Seq::new(
        axis_e.len(),
        |i: int|
            DataPair(
                axis_e[i].0,
                Data { cp: cp_r[i].1.cp, r_th: cp_r[i].1.r_th, e: axis_e[i].1.e },
            ),
    )
}

/// A series blending capacity and resistance between a low-bound and a
/// high-bound series at factor `f`, keeping the axis and emissivity of
/// `axis_e`.
pub open spec fn blend_channels(
    axis_e: Seq<DataPair>,
    lo: Seq<DataPair>,
    hi: Seq<DataPair>,
    f: u64,
) -> Seq<DataPair> {
    Seq::new(
        axis_e.len(),
        |i: int|
            DataPair(
                axis_e[i].0,
                Data {
                    cp: fx_blend(lo[i].1.cp, hi[i].1.cp, f),
                    r_th: fx_blend(lo[i].1.r_th, hi[i].1.r_th, f),
                    e: axis_e[i].1.e,
                },
            ),
    )
}

/// The min-bound thickness after a request.
pub open spec fn min_tickness_after(t: TPS, req: HeightRequest) -> u64 {
    match req {
        HeightRequest::UseMax => t.tickness_max,
        HeightRequest::UseMin => t.tickness_min,
        HeightRequest::Height(h) => {
            let f = height_factor(h, t.tickness_min, t.tickness_max);
            if in_band(f) {
                fx_blend(t.tickness_min, t.tickness_max, f)
            } else if above_band(f) {
                t.tickness_max
            } else {
                t.tickness_min
            }
        },
    }
}

/// The min-bound areal density after a request.
pub open spec fn min_ad_after(t: TPS, req: HeightRequest) -> u64 {
    match req {
        HeightRequest::UseMax => t.areal_density_max,
        HeightRequest::UseMin => t.areal_density_min,
        HeightRequest::Height(h) => {
            let f = height_factor(h, t.tickness_min, t.tickness_max);
            if in_band(f) {
                fx_blend(t.areal_density_min, t.areal_density_max, f)
            } else if above_band(f) {
                t.areal_density_max
            } else {
                t.areal_density_min
            }
        },
    }
}

/// The min-bound series after a request: capacity and resistance move, the
/// axis and the emissivity stay with the min variant.
pub open spec fn min_data_after(t: TPS, req: HeightRequest) -> Seq<DataPair> {
    match req {
        HeightRequest::UseMax => copy_channels(t.data_min@, t.data_max@),
        HeightRequest::UseMin => t.data_min@,
        HeightRequest::Height(h) => {
            let f = height_factor(h, t.tickness_min, t.tickness_max);
            if in_band(f) {
                blend_channels(t.data_min@, t.data_min@, t.data_max@, f)
            } else if above_band(f) {
                copy_channels(t.data_min@, t.data_max@)
            } else {
                t.data_min@
            }
        },
    }
}

/// The max-bound thickness after a request, given the already-updated
/// min-bound thickness `tmin1`; the factor is measured against the
/// originally stored bounds.
pub open spec fn max_tickness_after(t: TPS, tmin1: u64, req: HeightRequest) -> u64 {
    match req {
        HeightRequest::UseMin => tmin1,
        HeightRequest::UseMax => t.tickness_max,
        HeightRequest::Height(h) => {
            if t.tickness_max <= t.tickness_min {
                t.tickness_max
            } else {
                let f = height_factor(h, t.tickness_min, t.tickness_max);
                if in_band(f) {
                    fx_blend(tmin1, t.tickness_max, f)
                } else if f == 0 {
                    tmin1
                } else {
                    t.tickness_max
                }
            }
        },
    }
}

/// The max-bound areal density after a request, given the already-updated
/// min-bound areal density `admin1`.
pub open spec fn max_ad_after(t: TPS, admin1: u64, req: HeightRequest) -> u64 {
    match req {
        HeightRequest::UseMin => admin1,
        HeightRequest::UseMax => t.areal_density_max,
        HeightRequest::Height(h) => {
            if t.tickness_max <= t.tickness_min {
                t.areal_density_max
            } else {
                let f = height_factor(h, t.tickness_min, t.tickness_max);
                if in_band(f) {
                    fx_blend(admin1, t.areal_density_max, f)
                } else if f == 0 {
                    admin1
                } else {
                    t.areal_density_max
                }
            }
        },
    }
}

/// The max-bound series after a request, given the already-updated min-bound
/// series `dmin1`: capacity and resistance move, the axis and the emissivity
/// stay with the max variant.
pub open spec fn max_data_after(t: TPS, dmin1: Seq<DataPair>, req: HeightRequest) -> Seq<
    DataPair,
> {
    match req {
        HeightRequest::UseMin => copy_channels(t.data_max@, dmin1),
        HeightRequest::UseMax => t.data_max@,
        HeightRequest::Height(h) => {
            if t.tickness_max <= t.tickness_min {
                t.data_max@
            } else {
                let f = height_factor(h, t.tickness_min, t.tickness_max);
                if in_band(f) {
                    blend_channels(t.data_max@, dmin1, t.data_max@, f)
                } else if f == 0 {
                    copy_channels(t.data_max@, dmin1)
                } else {
                    t.data_max@
                }
            }
        },
    }
}

/// The blend at its boundary factors is exact: factor zero reproduces the
/// min-bound value identically, factor `SCALE` (one in storage scale) the
/// max-bound value.
pub proof fn lemma_blend_bounds(a: u64, b: u64)
    ensures
        fx_blend(a, b, 0) == a,
        fx_blend(a, b, SCALE) == b,
{
}

/// Requesting an assembly at exactly its stored bounds changes nothing:
/// the min-bound factor is zero and snaps to the min variant, the max-bound
/// factor is one and snaps to the max variant, so both variants are kept
/// bit for bit.
pub proof fn lemma_change_height_at_stored_bounds(t: TPS)
    ensures
        min_tickness_after(t, HeightRequest::Height(t.tickness_min)) == t.tickness_min,
        min_ad_after(t, HeightRequest::Height(t.tickness_min)) == t.areal_density_min,
        min_data_after(t, HeightRequest::Height(t.tickness_min)) == t.data_min@,
        max_tickness_after(t, t.tickness_min, HeightRequest::Height(t.tickness_max))
            == t.tickness_max,
        max_ad_after(t, t.areal_density_min, HeightRequest::Height(t.tickness_max))
            == t.areal_density_max,
        max_data_after(t, t.data_min@, HeightRequest::Height(t.tickness_max)) == t.data_max@,
{
    assert(height_factor(t.tickness_min, t.tickness_min, t.tickness_max) == 0);
    if t.tickness_min < t.tickness_max {
        let d: int = (t.tickness_max - t.tickness_min) as int;
        lemma_div_multiples_vanish(SCALE as int, d);
        assert((t.tickness_max - t.tickness_min) * SCALE == d * (SCALE as int));
        assert(height_factor(t.tickness_max, t.tickness_min, t.tickness_max) == SCALE);
    }
}

/// The executable form of `height_factor`.
fn height_factor_exec(h: u64, tmin: u64, tmax: u64) -> (r: u64)
    ensures
        r == height_factor(h, tmin, tmax),
{
    if tmax <= tmin || h <= tmin {
        0
    } else {
        proof {
            lemma_mul_upper_bound((h - tmin) as int, u64::MAX as int, SCALE as int, SCALE as int);
        }
        let q: u128 = ((h - tmin) as u128) * (SCALE as u128) / ((tmax - tmin) as u128);
        if q > VAL_MAX as u128 {
            VAL_MAX
        } else {
            q as u64
        }
    }
}

/// An unchanged copy of a raw series.
fn copy_pairs(data: &Vec<DataPair>) -> (out: Vec<DataPair>)
    ensures
        out@ == data@,
{
    let n: usize = data.len();
    let mut out: Vec<DataPair> = Vec::new();
    let mut i: usize = 0;
    while i < n
        invariant
            i <= n,
            n == data@.len(),
            out@.len() == i,
            forall|m: int| 0 <= m < i ==> out@[m] == data@[m],
        decreases n - i,
    {
        out.push(data[i]);
        i = i + 1;
    }
    proof {
        assert(out@ =~= data@);
    }
    out
}

/// The executable form of `copy_channels`.
fn copy_channels_exec(axis_e: &Vec<DataPair>, cp_r: &Vec<DataPair>) -> (out: Vec<DataPair>)
    requires
        axis_e@.len() == cp_r@.len(),
    ensures
        out@ == copy_channels(axis_e@, cp_r@),
{
    let n: usize = axis_e.len();
    let mut out: Vec<DataPair> = Vec::new();
    let mut i: usize = 0;
    while i < n
        invariant
            i <= n,
            n == axis_e@.len(),
            n == cp_r@.len(),
            out@.len() == i,
            forall|m: int| 0 <= m < i ==> out@[m] == copy_channels(axis_e@, cp_r@)[m],
        decreases n - i,
    {
        out.push(
            DataPair(
                axis_e[i].0,
                Data { cp: cp_r[i].1.cp, r_th: cp_r[i].1.r_th, e: axis_e[i].1.e },
            ),
        );
        i = i + 1;
    }
    proof {
        assert(out@ =~= copy_channels(axis_e@, cp_r@));
    }
    out
}

/// The executable form of `blend_channels`.
fn blend_channels_exec(
    axis_e: &Vec<DataPair>,
    lo: &Vec<DataPair>,
    hi: &Vec<DataPair>,
    f: u64,
) -> (out: Vec<DataPair>)
    requires
        axis_e@.len() == lo@.len(),
        axis_e@.len() == hi@.len(),
    ensures
        out@ == blend_channels(axis_e@, lo@, hi@, f),
{
    let n: usize = axis_e.len();
    let mut out: Vec<DataPair> = Vec::new();
    let mut i: usize = 0;
    while i < n
        invariant
            i <= n,
            n == axis_e@.len(),
            n == lo@.len(),
            n == hi@.len(),
            out@.len() == i,
            forall|m: int| 0 <= m < i ==> out@[m] == blend_channels(axis_e@, lo@, hi@, f)[m],
        decreases n - i,
    {
        let cp: u64 = fixed_blend(lo[i].1.cp, hi[i].1.cp, f);
        let r_th: u64 = fixed_blend(lo[i].1.r_th, hi[i].1.r_th, f);
        out.push(DataPair(axis_e[i].0, Data { cp, r_th, e: axis_e[i].1.e }));
        i = i + 1;
    }
    proof {
        assert(out@ =~= blend_channels(axis_e@, lo@, hi@, f));
    }
    out
}

/// Move an assembly to the requested thickness bounds: the min bound first,
/// then the max bound against the updated min values.  Layers, identity and
/// peak temperature are untouched.
pub fn tps_change_height(tps: &mut TPS, new_height_min: HeightRequest, new_height_max: HeightRequest)
    requires
        old(tps).data_min@.len() == old(tps).data_max@.len(),
    ensures
        final(tps).tickness_min == min_tickness_after(*old(tps), new_height_min),
        final(tps).areal_density_min == min_ad_after(*old(tps), new_height_min),
        final(tps).data_min@ == min_data_after(*old(tps), new_height_min),
        final(tps).tickness_max == max_tickness_after(
            *old(tps),
            min_tickness_after(*old(tps), new_height_min),
            new_height_max,
        ),
        final(tps).areal_density_max == max_ad_after(
            *old(tps),
            min_ad_after(*old(tps), new_height_min),
            new_height_max,
        ),
        final(tps).data_max@ == max_data_after(
            *old(tps),
            min_data_after(*old(tps), new_height_min),
            new_height_max,
        ),
        final(tps).name@ == old(tps).name@,
        final(tps).temp == old(tps).temp,
        final(tps).absorbation_const == old(tps).absorbation_const,
        final(tps).segments_min@ == old(tps).segments_min@,
        final(tps).segments_max@ == old(tps).segments_max@,
        final(tps).has_ablator@ == old(tps).has_ablator@,
        final(tps).cost_per_area == old(tps).cost_per_area,
{
    let orig_tmin: u64 = tps.tickness_min;
    let orig_tmax: u64 = tps.tickness_max;
    let mut new_tmin: u64 = tps.tickness_min;
    let mut new_admin: u64 = tps.areal_density_min;
    let new_dmin: Vec<DataPair>;
    match new_height_min {
        HeightRequest::UseMax => {
            new_tmin = tps.tickness_max;
            new_admin = tps.areal_density_max;
            new_dmin = copy_channels_exec(&tps.data_min, &tps.data_max);
        },
        HeightRequest::UseMin => {
            new_dmin = copy_pairs(&tps.data_min);
        },
        HeightRequest::Height(h) => {
            let f: u64 = height_factor_exec(h, orig_tmin, orig_tmax);
            if 1 <= f && f <= SCALE - 2 {
                new_tmin = fixed_blend(tps.tickness_min, tps.tickness_max, f);
                new_admin = fixed_blend(tps.areal_density_min, tps.areal_density_max, f);
                new_dmin = blend_channels_exec(&tps.data_min, &tps.data_min, &tps.data_max, f);
            } else if f >= SCALE - 1 {
                new_tmin = tps.tickness_max;
                new_admin = tps.areal_density_max;
                new_dmin = copy_channels_exec(&tps.data_min, &tps.data_max);
            } else {
                new_dmin = copy_pairs(&tps.data_min);
            }
        },
    }
    let mut new_tmax: u64 = tps.tickness_max;
    let mut new_admax: u64 = tps.areal_density_max;
    let new_dmax: Vec<DataPair>;
    match new_height_max {
        HeightRequest::UseMin => {
            new_tmax = new_tmin;
            new_admax = new_admin;
            new_dmax = copy_channels_exec(&tps.data_max, &new_dmin);
        },
        HeightRequest::UseMax => {
            new_dmax = copy_pairs(&tps.data_max);
        },
        HeightRequest::Height(h) => {
            if orig_tmax <= orig_tmin {
                new_dmax = copy_pairs(&tps.data_max);
            } else {
                let f: u64 = height_factor_exec(h, orig_tmin, orig_tmax);
                if 1 <= f && f <= SCALE - 2 {
                    new_tmax = fixed_blend(new_tmin, tps.tickness_max, f);
                    new_admax = fixed_blend(new_admin, tps.areal_density_max, f);
                    new_dmax = blend_channels_exec(&tps.data_max, &new_dmin, &tps.data_max, f);
                } else if f == 0 {
                    new_tmax = new_tmin;
                    new_admax = new_admin;
                    new_dmax = copy_channels_exec(&tps.data_max, &new_dmin);
                } else {
                    new_dmax = copy_pairs(&tps.data_max);
                }
            }
        },
    }
    tps.tickness_min = new_tmin;
    tps.areal_density_min = new_admin;
    tps.data_min = new_dmin;
    tps.tickness_max = new_tmax;
    tps.areal_density_max = new_admax;
    tps.data_max = new_dmax;
}

} // verus!
