//! Part-level aggregation: combine the assemblies of a part, each weighted by
//! its area portion, into the part's areal densities, thickness bounds and
//! final profile.
//!
//! Capacity contributions carry the assembly's share of the part's areal
//! density and the own-to-part temperature ratio; resistance and emissivity
//! contributions carry the portion alone.  The output axis is the reference
//! grid shifted down by the grid convention's fixed 25-degree calibration
//! offset, and the resistance channel is stored as its reciprocal.

use crate::data::{Data, DataTriplet, Part, PartPoint, TpsEntry};
use crate::fixed::{
    fixed_add, fixed_mul, fixed_muldiv, fixed_recip, fixed_sub, fx_add, fx_mul, fx_muldiv,
    fx_recip, fx_sub, VAL_MAX,
};
use vstd::prelude::*;

verus! {

/// Calibration shift of the output axis: 25 degrees in stored units.
pub const GRID_SHIFT: u64 = 25_000;

/// An entry's mapped series for the chosen thickness bound.
pub open spec fn entry_series(e: TpsEntry, mx: bool) -> Seq<DataTriplet> {
    if mx {
        e.data_max@
    } else {
        e.data_min@
    }
}

/// An entry's assembly areal density for the chosen thickness bound.
pub open spec fn entry_ad(e: TpsEntry, mx: bool) -> u64 {
    if mx {
        e.tps.areal_density_max
    } else {
        e.tps.areal_density_min
    }
}

/// An entry's assembly thickness for the chosen thickness bound.
pub open spec fn entry_th(e: TpsEntry, mx: bool) -> u64 {
    if mx {
        e.tps.tickness_max
    } else {
        e.tps.tickness_min
    }
}

/// Portion-weighted areal density of the part over its first `n` entries.
pub open spec fn part_ad(entries: Seq<TpsEntry>, mx: bool, n: int) -> u64
    decreases n,
{
    if n <= 0 {
        0
    } else {
        fx_add(part_ad(entries, mx, n - 1), fx_mul(entry_ad(entries[n - 1], mx), entries[n - 1].portion))
    }
}

/// Portion-weighted thickness of the part over its first `n` entries.
pub open spec fn part_th(entries: Seq<TpsEntry>, mx: bool, n: int) -> u64
    decreases n,
{
    if n <= 0 {
        0
    } else {
        fx_add(part_th(entries, mx, n - 1), fx_mul(entry_th(entries[n - 1], mx), entries[n - 1].portion))
    }
}

/// One assembly's capacity contribution at grid index `i`: its capacity
/// scaled by its share of the part's areal density `adp`, by its portion,
/// and by the ratio of its own temperature to the part-axis temperature,
/// both measured from the calibration point `te`.  On the degenerate axis
/// point (part temperature at or below `te`) the ratio is taken as one.
pub open spec fn ctr_cp(e: TpsEntry, mx: bool, i: int, adp: u64, te: u64) -> u64 {
    let t = entry_series(e, mx)[i];
    let a = fx_muldiv(t.thermal_data.cp, entry_ad(e, mx), adp);
    let b = fx_mul(a, e.portion);
    if t.temp_part <= te {
        b
    } else {
        fx_muldiv(b, fx_sub(t.temp_sub_part, te), (t.temp_part - te) as u64)
    }
}

/// Capacity of the part at grid index `i`, summed over its first `n`
/// entries.
pub open spec fn part_cp(entries: Seq<TpsEntry>, mx: bool, i: int, adp: u64, te: u64, n: int) -> u64
    decreases n,
{
    if n <= 0 {
        0
    } else {
        fx_add(
            part_cp(entries, mx, i, adp, te, n - 1),
            ctr_cp(entries[n - 1], mx, i, adp, te),
        )
    }
}

/// Resistance of the part at grid index `i`: the portion-weighted sum over
/// its first `n` entries.
pub open spec fn part_r(entries: Seq<TpsEntry>, mx: bool, i: int, n: int) -> u64
    decreases n,
{
    if n <= 0 {
        0
    } else {
        fx_add(
            part_r(entries, mx, i, n - 1),
            fx_mul(entries[n - 1].portion, entry_series(entries[n - 1], mx)[i].thermal_data.r_th),
        )
    }
}

/// Emissivity of the part at grid index `i`: the portion-weighted sum over
/// its first `n` entries.
pub open spec fn part_e(entries: Seq<TpsEntry>, mx: bool, i: int, n: int) -> u64
    decreases n,
{
    if n <= 0 {
        0
    } else {
        fx_add(
            part_e(entries, mx, i, n - 1),
            fx_mul(entry_series(entries[n - 1], mx)[i].thermal_data.e, entries[n - 1].portion),
        )
    }
}

/// Combine the part's assemblies into its areal densities, thickness bounds
/// and final min/max profiles.  The identity of the part (name, description,
/// limits, mixture) is untouched.
pub fn calculate_part(part: &mut Part, temp_ref_list: &Vec<u64>, t_eq: u64)
    requires
        forall|k: int|
            0 <= k < old(part).tps_list@.len() ==> old(part).tps_list@[k].data_min@.len()
                == temp_ref_list@.len() && old(part).tps_list@[k].data_max@.len()
                == temp_ref_list@.len(),
        forall|i: int| 0 <= i < temp_ref_list@.len() ==> temp_ref_list@[i] <= VAL_MAX,
    ensures
        final(part).areal_density_min == part_ad(
            old(part).tps_list@,
            false,
            old(part).tps_list@.len() as int,
        ),
        final(part).areal_density_max == part_ad(
            old(part).tps_list@,
            true,
            old(part).tps_list@.len() as int,
        ),
        final(part).height_min == part_th(
            old(part).tps_list@,
            false,
            old(part).tps_list@.len() as int,
        ),
        final(part).height_max == part_th(
            old(part).tps_list@,
            true,
            old(part).tps_list@.len() as int,
        ),
        final(part).data_min@.len() == temp_ref_list@.len(),
        final(part).data_max@.len() == temp_ref_list@.len(),
        forall|i: int|
            0 <= i < temp_ref_list@.len() ==> final(part).data_min@[i].temp == temp_ref_list@[i]
                - GRID_SHIFT,
        forall|i: int|
            0 <= i < temp_ref_list@.len() ==> final(part).data_max@[i].temp == temp_ref_list@[i]
                - GRID_SHIFT,
        forall|i: int|
            0 <= i < temp_ref_list@.len() ==> final(part).data_min@[i].data == (Data {
                cp: part_cp(
                    old(part).tps_list@,
                    false,
                    i,
                    part_ad(old(part).tps_list@, false, old(part).tps_list@.len() as int),
                    t_eq,
                    old(part).tps_list@.len() as int,
                ),
                r_th: fx_recip(part_r(old(part).tps_list@, false, i, old(part).tps_list@.len() as int)),
                e: part_e(old(part).tps_list@, false, i, old(part).tps_list@.len() as int),
            }),
        forall|i: int|
            0 <= i < temp_ref_list@.len() ==> final(part).data_max@[i].data == (Data {
                cp: part_cp(
                    old(part).tps_list@,
                    true,
                    i,
                    part_ad(old(part).tps_list@, true, old(part).tps_list@.len() as int),
                    t_eq,
                    old(part).tps_list@.len() as int,
                ),
                r_th: fx_recip(part_r(old(part).tps_list@, true, i, old(part).tps_list@.len() as int)),
                e: part_e(old(part).tps_list@, true, i, old(part).tps_list@.len() as int),
            }),
        final(part).name@ == old(part).name@,
        final(part).description@ == old(part).description@,
        final(part).temp == old(part).temp,
        final(part).absorbation_const == old(part).absorbation_const,
        final(part).cost_per_area == old(part).cost_per_area,
        final(part).has_ablator == old(part).has_ablator,
        final(part).tps_list@ == old(part).tps_list@,
{
    let n_e: usize = part.tps_list.len();
    let m: usize = temp_ref_list.len();
    let mut adp_min: u64 = 0;
    let mut adp_max: u64 = 0;
    let mut h_min: u64 = 0;
    let mut h_max: u64 = 0;
    let mut k: usize = 0;
    while k < n_e
        invariant
            k <= n_e,
            *part == *old(part),
            n_e == part.tps_list@.len(),
            adp_min == part_ad(part.tps_list@, false, k as int),
            adp_max == part_ad(part.tps_list@, true, k as int),
            h_min == part_th(part.tps_list@, false, k as int),
            h_max == part_th(part.tps_list@, true, k as int),
        decreases n_e - k,
    {
        let entry: &TpsEntry = &part.tps_list[k];
        adp_min = fixed_add(adp_min, fixed_mul(entry.tps.areal_density_min, entry.portion));
        adp_max = fixed_add(adp_max, fixed_mul(entry.tps.areal_density_max, entry.portion));
        h_min = fixed_add(h_min, fixed_mul(entry.tps.tickness_min, entry.portion));
        h_max = fixed_add(h_max, fixed_mul(entry.tps.tickness_max, entry.portion));
        k = k + 1;
    }
    let mut data_min_new: Vec<PartPoint> = Vec::new();
    let mut data_max_new: Vec<PartPoint> = Vec::new();
    let mut i: usize = 0;
    while i < m
        invariant
            i <= m,
            *part == *old(part),
            n_e == part.tps_list@.len(),
            m == temp_ref_list@.len(),
            forall|p: int|
                0 <= p < part.tps_list@.len() ==> part.tps_list@[p].data_min@.len()
                    == temp_ref_list@.len() && part.tps_list@[p].data_max@.len()
                    == temp_ref_list@.len(),
            forall|p: int| 0 <= p < temp_ref_list@.len() ==> temp_ref_list@[p] <= VAL_MAX,
            adp_min == part_ad(part.tps_list@, false, n_e as int),
            adp_max == part_ad(part.tps_list@, true, n_e as int),
            data_min_new@.len() == i,
            data_max_new@.len() == i,
            forall|p: int|
                0 <= p < i ==> data_min_new@[p].temp == temp_ref_list@[p] - GRID_SHIFT
                    && data_min_new@[p].data == (Data {
                    cp: part_cp(part.tps_list@, false, p, adp_min, t_eq, n_e as int),
                    r_th: fx_recip(part_r(part.tps_list@, false, p, n_e as int)),
                    e: part_e(part.tps_list@, false, p, n_e as int),
                }),
            forall|p: int|
                0 <= p < i ==> data_max_new@[p].temp == temp_ref_list@[p] - GRID_SHIFT
                    && data_max_new@[p].data == (Data {
                    cp: part_cp(part.tps_list@, true, p, adp_max, t_eq, n_e as int),
                    r_th: fx_recip(part_r(part.tps_list@, true, p, n_e as int)),
                    e: part_e(part.tps_list@, true, p, n_e as int),
                }),
        decreases m - i,
    {
        let mut cp_min: u64 = 0;
        let mut r_min: u64 = 0;
        let mut e_min: u64 = 0;
        let mut cp_max: u64 = 0;
        let mut r_max: u64 = 0;
        let mut e_max: u64 = 0;
        let mut k: usize = 0;
        while k < n_e
            invariant
                k <= n_e,
                i < m,
                *part == *old(part),
                n_e == part.tps_list@.len(),
                m == temp_ref_list@.len(),
                forall|p: int|
                    0 <= p < part.tps_list@.len() ==> part.tps_list@[p].data_min@.len()
                        == temp_ref_list@.len() && part.tps_list@[p].data_max@.len()
                        == temp_ref_list@.len(),
                cp_min == part_cp(part.tps_list@, false, i as int, adp_min, t_eq, k as int),
                r_min == part_r(part.tps_list@, false, i as int, k as int),
                e_min == part_e(part.tps_list@, false, i as int, k as int),
                cp_max == part_cp(part.tps_list@, true, i as int, adp_max, t_eq, k as int),
                r_max == part_r(part.tps_list@, true, i as int, k as int),
                e_max == part_e(part.tps_list@, true, i as int, k as int),
            decreases n_e - k,
        {
            let entry: &TpsEntry = &part.tps_list[k];
            let t_min: DataTriplet = entry.data_min[i];
            let a_min: u64 = fixed_muldiv(t_min.thermal_data.cp, entry.tps.areal_density_min, adp_min);
            let b_min: u64 = fixed_mul(a_min, entry.portion);
            let c_min: u64 = if t_min.temp_part <= t_eq {
                b_min
            } else {
                fixed_muldiv(b_min, fixed_sub(t_min.temp_sub_part, t_eq), t_min.temp_part - t_eq)
            };
            cp_min = fixed_add(cp_min, c_min);
            r_min = fixed_add(r_min, fixed_mul(entry.portion, t_min.thermal_data.r_th));
            e_min = fixed_add(e_min, fixed_mul(t_min.thermal_data.e, entry.portion));
            let t_max: DataTriplet = entry.data_max[i];
            let a_max: u64 = fixed_muldiv(t_max.thermal_data.cp, entry.tps.areal_density_max, adp_max);
            let b_max: u64 = fixed_mul(a_max, entry.portion);
            let c_max: u64 = if t_max.temp_part <= t_eq {
                b_max
            } else {
                fixed_muldiv(b_max, fixed_sub(t_max.temp_sub_part, t_eq), t_max.temp_part - t_eq)
            };
            cp_max = fixed_add(cp_max, c_max);
            r_max = fixed_add(r_max, fixed_mul(entry.portion, t_max.thermal_data.r_th));
            e_max = fixed_add(e_max, fixed_mul(t_max.thermal_data.e, entry.portion));
            k = k + 1;
        }
        let shifted: i64 = (temp_ref_list[i] as i64) - (GRID_SHIFT as i64);
        data_min_new.push(
            PartPoint {
                temp: shifted,
                data: Data { cp: cp_min, r_th: fixed_recip(r_min), e: e_min },
            },
        );
        data_max_new.push(
            PartPoint {
                temp: shifted,
                data: Data { cp: cp_max, r_th: fixed_recip(r_max), e: e_max },
            },
        );
        i = i + 1;
    }
    part.areal_density_min = adp_min;
    part.areal_density_max = adp_max;
    part.height_min = h_min;
    part.height_max = h_max;
    part.data_min = data_min_new;
    part.data_max = data_max_new;
}

} // verus!
