//! Assembly-level weighting and aggregation.
//!
//! `tps_value_mult` rescales each sample's capacity by the segment's mass
//! fraction of the assembly and by the ratio of its own temperature to its
//! mapped assembly temperature.  `calc_tps_height_density` sums the layers'
//! areal densities and thicknesses into the assembly totals, and
//! `calc_tps_data` sums the layers' weighted series index-wise into the
//! assembly profile, emissivity coming from the first layer that reports a
//! nonzero value (the exposed layer dominates; later layers are ignored).

use crate::data::{triplet_bounded, Data, DataPair, DataTriplet, Segment, TPS};
use crate::fixed::{
    fixed_add, fixed_div, fixed_mul, fx_add, fx_div, fx_mul, fx_sum, sat, wide_mul, SCALE, VAL_MAX,
};
use vstd::arithmetic::mul::lemma_mul_upper_bound;
use vstd::prelude::*;

verus! {

/// A sample's capacity weighted by the segment's density fraction `df` and
/// its own-to-assembly temperature ratio.  At the degenerate axis origin
/// (mapped temperature zero) the ratio is taken as one.
pub open spec fn weight_cp(cp: u64, own: u64, parent: u64, df: u64) -> u64 {
    if parent == 0 {
        fx_mul(cp, df)
    } else {
        sat(cp * own * df / ((parent * SCALE) as int))
    }
}

/// Weight a segment's mapped series by its share of the assembly's areal
/// density; resistance and emissivity pass through unchanged.
pub fn tps_value_mult(
    assembly_density: u64,
    segment_density: u64,
    segment_data: &Vec<DataTriplet>,
) -> (out: Vec<DataTriplet>)
    requires
        forall|i: int| 0 <= i < segment_data@.len() ==> triplet_bounded(segment_data@[i]),
    ensures
        out@.len() == segment_data@.len(),
        forall|i: int|
            0 <= i < out@.len() ==> out@[i] == (DataTriplet {
                temp_part: segment_data@[i].temp_part,
                thermal_data: Data {
                    cp: weight_cp(
                        segment_data@[i].thermal_data.cp,
                        segment_data@[i].temp_sub_part,
                        segment_data@[i].temp_part,
                        fx_div(segment_density, assembly_density),
                    ),
                    r_th: segment_data@[i].thermal_data.r_th,
                    e: segment_data@[i].thermal_data.e,
                },
                temp_sub_part: segment_data@[i].temp_sub_part,
            }),
{
    let df: u64 = fixed_div(segment_density, assembly_density);
    let n: usize = segment_data.len();
    let mut out: Vec<DataTriplet> = Vec::new();
    let mut i: usize = 0;
    while i < n
        invariant
            i <= n,
            n == segment_data@.len(),
            df == fx_div(segment_density, assembly_density),
            df <= VAL_MAX,
            forall|m: int| 0 <= m < n ==> triplet_bounded(segment_data@[m]),
            out@.len() == i,
            forall|m: int|
                0 <= m < i ==> out@[m] == (DataTriplet {
                    temp_part: segment_data@[m].temp_part,
                    thermal_data: Data {
                        cp: weight_cp(
                            segment_data@[m].thermal_data.cp,
                            segment_data@[m].temp_sub_part,
                            segment_data@[m].temp_part,
                            df,
                        ),
                        r_th: segment_data@[m].thermal_data.r_th,
                        e: segment_data@[m].thermal_data.e,
                    },
                    temp_sub_part: segment_data@[m].temp_sub_part,
                }),
        decreases n - i,
    {
        let row: DataTriplet = segment_data[i];
        let cp_new: u64 = if row.temp_part == 0 {
            fixed_mul(row.thermal_data.cp, df)
        } else {
            proof {
                assert(row.thermal_data.cp * row.temp_sub_part * df <= VAL_MAX * VAL_MAX * VAL_MAX
                    < u128::MAX) by (nonlinear_arith)
                    requires
                        0 <= row.thermal_data.cp <= VAL_MAX,
                        0 <= row.temp_sub_part <= VAL_MAX,
                        0 <= df <= VAL_MAX,
                        VAL_MAX == 1_000_000_000_000,
                ;
                assert((row.temp_part as int) * (SCALE as int) > 0) by (nonlinear_arith)
                    requires
                        row.temp_part >= 1,
                        SCALE == 1000,
                ;
            }
            let num: u128 = wide_mul(row.thermal_data.cp, row.temp_sub_part) * (df as u128);
            let den: u128 = (row.temp_part as u128) * (SCALE as u128);
            let q: u128 = num / den;
            if q > VAL_MAX as u128 {
                VAL_MAX
            } else {
                q as u64
            }
        };
        out.push(
            DataTriplet {
                temp_part: row.temp_part,
                thermal_data: Data {
                    cp: cp_new,
                    r_th: row.thermal_data.r_th,
                    e: row.thermal_data.e,
                },
                temp_sub_part: row.temp_sub_part,
            },
        );
        i = i + 1;
    }
    out
}

/// The areal-density column of a layer list.
pub open spec fn seg_col_ad(segs: Seq<Segment>) -> Seq<u64> {
    Seq::new(segs.len(), |i: int| segs[i].areal_density)
}

/// The thickness column of a layer list.
pub open spec fn seg_col_th(segs: Seq<Segment>) -> Seq<u64> {
    Seq::new(segs.len(), |i: int| segs[i].tickness)
}

/// Recompute an assembly's areal densities and thicknesses as the saturating
/// sums over its layers, for both stored variants; no other field changes.
pub fn calc_tps_height_density(tps: &mut TPS)
    ensures
        final(tps).areal_density_min == fx_sum(
            seg_col_ad(old(tps).segments_min@),
            old(tps).segments_min@.len() as int,
        ),
        final(tps).tickness_min == fx_sum(
            seg_col_th(old(tps).segments_min@),
            old(tps).segments_min@.len() as int,
        ),
        final(tps).areal_density_max == fx_sum(
            seg_col_ad(old(tps).segments_max@),
            old(tps).segments_max@.len() as int,
        ),
        final(tps).tickness_max == fx_sum(
            seg_col_th(old(tps).segments_max@),
            old(tps).segments_max@.len() as int,
        ),
        final(tps).name@ == old(tps).name@,
        final(tps).temp == old(tps).temp,
        final(tps).absorbation_const == old(tps).absorbation_const,
        final(tps).data_min@ == old(tps).data_min@,
        final(tps).segments_min@ == old(tps).segments_min@,
        final(tps).data_max@ == old(tps).data_max@,
        final(tps).segments_max@ == old(tps).segments_max@,
        final(tps).has_ablator@ == old(tps).has_ablator@,
        final(tps).cost_per_area == old(tps).cost_per_area,
{
    let n_min: usize = tps.segments_min.len();
    let mut ad_min: u64 = 0;
    let mut th_min: u64 = 0;
    let mut i: usize = 0;
    while i < n_min
        invariant
            i <= n_min,
            *tps == *old(tps),
            n_min == tps.segments_min@.len(),
            ad_min == fx_sum(seg_col_ad(tps.segments_min@), i as int),
            th_min == fx_sum(seg_col_th(tps.segments_min@), i as int),
        decreases n_min - i,
    {
        ad_min = fixed_add(ad_min, tps.segments_min[i].areal_density);
        th_min = fixed_add(th_min, tps.segments_min[i].tickness);
        i = i + 1;
    }
    let n_max: usize = tps.segments_max.len();
    let mut ad_max: u64 = 0;
    let mut th_max: u64 = 0;
    let mut i: usize = 0;
    while i < n_max
        invariant
            i <= n_max,
            *tps == *old(tps),
            n_max == tps.segments_max@.len(),
            ad_max == fx_sum(seg_col_ad(tps.segments_max@), i as int),
            th_max == fx_sum(seg_col_th(tps.segments_max@), i as int),
        decreases n_max - i,
    {
        ad_max = fixed_add(ad_max, tps.segments_max[i].areal_density);
        th_max = fixed_add(th_max, tps.segments_max[i].tickness);
        i = i + 1;
    }
    tps.areal_density_min = ad_min;
    tps.tickness_min = th_min;
    tps.areal_density_max = ad_max;
    tps.tickness_max = th_max;
}

/// The capacity column of the layers' weighted series at grid index `i`.
pub open spec fn layer_cps(segs: Seq<Segment>, i: int) -> Seq<u64> {
    Seq::new(segs.len(), |k: int| segs[k].data_tps_temp_mult@[i].thermal_data.cp)
}

/// The resistance column of the layers' weighted series at grid index `i`.
pub open spec fn layer_rs(segs: Seq<Segment>, i: int) -> Seq<u64> {
    Seq::new(segs.len(), |k: int| segs[k].data_tps_temp_mult@[i].thermal_data.r_th)
}

/// The first nonzero emissivity among the layers at grid index `i`, in layer
/// order, searching from layer `k`; zero if every layer reports zero.
pub open spec fn first_layer_e(segs: Seq<Segment>, i: int, k: int) -> u64
    decreases segs.len() - k,
{
    if k >= segs.len() {
        0
    } else if segs[k].data_tps_temp_mult@[i].thermal_data.e > 0 {
        segs[k].data_tps_temp_mult@[i].thermal_data.e
    } else {
        first_layer_e(segs, i, k + 1)
    }
}

/// Sum the layers' weighted series into the assembly profile, one sample per
/// reference-grid temperature: capacities and resistances add up, and the
/// emissivity at each grid point is the first nonzero value in declared
/// layer order.
pub fn calc_tps_data(segments: &Vec<Segment>, temp_list: &Vec<u64>) -> (out: Vec<DataPair>)
    requires
        forall|k: int|
            0 <= k < segments@.len() ==> segments@[k].data_tps_temp_mult@.len()
                == temp_list@.len(),
    ensures
        out@.len() == temp_list@.len(),
        forall|i: int| 0 <= i < out@.len() ==> out@[i].0 == temp_list@[i],
        forall|i: int|
            0 <= i < out@.len() ==> out@[i].1.cp == fx_sum(
                layer_cps(segments@, i),
                segments@.len() as int,
            ),
        forall|i: int|
            0 <= i < out@.len() ==> out@[i].1.r_th == fx_sum(
                layer_rs(segments@, i),
                segments@.len() as int,
            ),
        forall|i: int| 0 <= i < out@.len() ==> out@[i].1.e == first_layer_e(segments@, i, 0),
{
    let n_grid: usize = temp_list.len();
    let n_seg: usize = segments.len();
    let mut out: Vec<DataPair> = Vec::new();
    let mut i: usize = 0;
    while i < n_grid
        invariant
            i <= n_grid,
            n_grid == temp_list@.len(),
            n_seg == segments@.len(),
            forall|k: int|
                0 <= k < segments@.len() ==> segments@[k].data_tps_temp_mult@.len()
                    == temp_list@.len(),
            out@.len() == i,
            forall|m: int| 0 <= m < i ==> out@[m].0 == temp_list@[m],
            forall|m: int|
                0 <= m < i ==> out@[m].1.cp == fx_sum(layer_cps(segments@, m), n_seg as int),
            forall|m: int|
                0 <= m < i ==> out@[m].1.r_th == fx_sum(layer_rs(segments@, m), n_seg as int),
            forall|m: int| 0 <= m < i ==> out@[m].1.e == first_layer_e(segments@, m, 0),
        decreases n_grid - i,
    {
        let mut cp_acc: u64 = 0;
        let mut r_acc: u64 = 0;
        let mut e_acc: u64 = 0;
        let mut k: usize = 0;
        while k < n_seg
            invariant
                k <= n_seg,
                i < n_grid,
                n_grid == temp_list@.len(),
                n_seg == segments@.len(),
                forall|p: int|
                    0 <= p < segments@.len() ==> segments@[p].data_tps_temp_mult@.len()
                        == temp_list@.len(),
                cp_acc == fx_sum(layer_cps(segments@, i as int), k as int),
                r_acc == fx_sum(layer_rs(segments@, i as int), k as int),
                (e_acc == 0 && first_layer_e(segments@, i as int, 0) == first_layer_e(
                    segments@,
                    i as int,
                    k as int,
                )) || (e_acc != 0 && e_acc == first_layer_e(segments@, i as int, 0)),
            decreases n_seg - k,
        {
            let row: &DataTriplet = &segments[k].data_tps_temp_mult[i];
            cp_acc = fixed_add(cp_acc, row.thermal_data.cp);
            r_acc = fixed_add(r_acc, row.thermal_data.r_th);
            if e_acc == 0 {
                e_acc = row.thermal_data.e;
            }
            k = k + 1;
        }
        proof {
            if e_acc == 0 {
                assert(first_layer_e(segments@, i as int, n_seg as int) == 0);
            }
        }
        out.push(DataPair(temp_list[i], Data { cp: cp_acc, r_th: r_acc, e: e_acc }));
        i = i + 1;
    }
    out
}

} // verus!
