//! Grid mapping: express a component's series on its parent's temperature
//! axis and resample it onto the shared reference grid.
//!
//! Mapping scales each component temperature by the ratio of the parent's
//! peak temperature to the component's peak temperature (only when the
//! component peaks below the parent), measured from the calibration point
//! `t_eq`.  Resampling then produces exactly one sample per reference-grid
//! temperature: inside the mapped domain both the channels and the component
//! temperature are interpolated linearly; outside it the nearest sample's
//! channels are held and its component temperature is scaled in proportion to
//! the grid temperature.

use crate::data::{col_temp, temps_nondec, Data, DataPair, DataTriplet};
use crate::fixed::{fixed_lerp, fixed_muldiv, fx_lerp, fx_muldiv, sat, SCALE, VAL_MAX};
use vstd::arithmetic::div_mod::{lemma_div_is_ordered, lemma_div_nonincreasing};
use vstd::arithmetic::mul::{lemma_mul_inequality, lemma_mul_upper_bound};
use vstd::prelude::*;

verus! {

/// A component temperature moved onto the parent's axis: scaled by
/// `(assemb_temp - t_eq) / (comp_temp - t_eq)` when the component peaks below
/// the parent and the scaling is well defined, otherwise kept as it is.
pub open spec fn map_temp(assemb_temp: u64, comp_temp: u64, t_eq: u64, t: u64) -> u64 {
    if comp_temp < assemb_temp && t_eq < comp_temp && t_eq <= t {
        sat((t - t_eq) * (assemb_temp - t_eq) / ((comp_temp - t_eq) as int) + t_eq)
    } else {
        t
    }
}

/// A whole series moved onto the parent's axis, keeping each sample's own
/// temperature alongside.
pub open spec fn map_series(
    assemb_temp: u64,
    comp_temp: u64,
    t_eq: u64,
    s: Seq<DataPair>,
) -> Seq<DataTriplet> {
    Seq::new(
        s.len(),
        |i: int|
            DataTriplet {
                temp_part: map_temp(assemb_temp, comp_temp, t_eq, s[i].0),
                thermal_data: s[i].1,
                temp_sub_part: s[i].0,
            },
    )
}

/// Parent temperatures of a mapped series never step downward.
pub open spec fn tri_temps_nondec(s: Seq<DataTriplet>) -> bool {
    forall|i: int, j: int| 0 <= i <= j < s.len() ==> s[i].temp_part <= s[j].temp_part
}

/// Mapping preserves the order of temperatures.
pub proof fn lemma_map_temp_nondec(assemb_temp: u64, comp_temp: u64, t_eq: u64, t1: u64, t2: u64)
    requires
        t1 <= t2,
        t_eq <= VAL_MAX,
    ensures
        map_temp(assemb_temp, comp_temp, t_eq, t1) <= map_temp(assemb_temp, comp_temp, t_eq, t2),
{
    if comp_temp < assemb_temp && t_eq < comp_temp && t_eq <= t2 {
        let d: int = (comp_temp - t_eq) as int;
        let q2: int = (t2 - t_eq) * (assemb_temp - t_eq) / d;
        lemma_div_nonincreasing((t2 - t_eq) * (assemb_temp - t_eq), d);
        assert(q2 >= 0) by {
            lemma_div_is_ordered(0, (t2 - t_eq) * (assemb_temp - t_eq), d);
        }
        if t_eq <= t1 {
            let q1: int = (t1 - t_eq) * (assemb_temp - t_eq) / d;
            lemma_mul_inequality((t1 - t_eq) as int, (t2 - t_eq) as int, (assemb_temp - t_eq) as int);
            lemma_div_is_ordered(
                (t1 - t_eq) * (assemb_temp - t_eq),
                (t2 - t_eq) * (assemb_temp - t_eq),
                d,
            );
            assert(q1 <= q2);
        } else {
            assert(map_temp(assemb_temp, comp_temp, t_eq, t1) == t1);
            assert(t1 < t_eq);
            assert(sat(q2 + t_eq) >= t1);
        }
    }
}

/// Index of the last sample at or before grid temperature `g`, searching down
/// from `i`; `-1` when every sample up to `i` lies above `g`.
pub open spec fn bracket_at(s: Seq<DataTriplet>, g: u64, i: int) -> int
    decreases i + 1,
{
    if i < 0 {
        -1
    } else if s[i].temp_part <= g {
        i
    } else {
        bracket_at(s, g, i - 1)
    }
}

/// Basic facts about the bracket search.
pub proof fn lemma_bracket_props(s: Seq<DataTriplet>, g: u64, i: int)
    requires
        0 <= i < s.len(),
        s[0].temp_part <= g,
    ensures
        0 <= bracket_at(s, g, i) <= i,
        s[bracket_at(s, g, i)].temp_part <= g,
        forall|j: int| 0 <= j <= i && s[j].temp_part <= g ==> bracket_at(s, g, i) >= j,
    decreases i,
{
    if s[i].temp_part > g {
        lemma_bracket_props(s, g, i - 1);
    }
}

/// A sample's own temperature scaled in proportion to the grid temperature,
/// for grid points outside the mapped domain.  At the sample's own parent
/// temperature (and for a degenerate zero axis) the own temperature is kept.
pub open spec fn scale_own(own: u64, g: u64, t: u64) -> u64 {
    if t == g || t == 0 {
        own
    } else {
        fx_muldiv(own, g, t)
    }
}

/// The resampled sample at one grid temperature `g`.
pub open spec fn resampled(s: Seq<DataTriplet>, g: u64) -> DataTriplet {
    let n = s.len() as int;
    if g < s[0].temp_part {
        DataTriplet {
            temp_part: g,
            thermal_data: s[0].thermal_data,
            temp_sub_part: scale_own(s[0].temp_sub_part, g, s[0].temp_part),
        }
    } else {
        let j = bracket_at(s, g, n - 1);
        if j == n - 1 {
            DataTriplet {
                temp_part: g,
                thermal_data: s[n - 1].thermal_data,
                temp_sub_part: scale_own(s[n - 1].temp_sub_part, g, s[n - 1].temp_part),
            }
        } else {
            DataTriplet {
                temp_part: g,
                thermal_data: Data {
                    cp: fx_lerp(
                        s[j].temp_part,
                        s[j].thermal_data.cp,
                        s[j + 1].temp_part,
                        s[j + 1].thermal_data.cp,
                        g,
                    ),
                    r_th: fx_lerp(
                        s[j].temp_part,
                        s[j].thermal_data.r_th,
                        s[j + 1].temp_part,
                        s[j + 1].thermal_data.r_th,
                        g,
                    ),
                    e: fx_lerp(
                        s[j].temp_part,
                        s[j].thermal_data.e,
                        s[j + 1].temp_part,
                        s[j + 1].thermal_data.e,
                        g,
                    ),
                },
                temp_sub_part: fx_lerp(
                    s[j].temp_part,
                    s[j].temp_sub_part,
                    s[j + 1].temp_part,
                    s[j + 1].temp_sub_part,
                    g,
                ),
            }
        }
    }
}

/// The whole series resampled onto a reference grid, one sample per grid
/// temperature, in grid order.
pub open spec fn resample_series(s: Seq<DataTriplet>, grid: Seq<u64>) -> Seq<DataTriplet> {
    Seq::new(grid.len(), |i: int| resampled(s, grid[i]))
}

/// The executable form of `map_temp`.
fn map_temp_exec(assemb_temp: u64, comp_temp: u64, t_eq: u64, t: u64) -> (r: u64)
    ensures
        r == map_temp(assemb_temp, comp_temp, t_eq, t),
{
    if comp_temp < assemb_temp && t_eq < comp_temp && t_eq <= t {
        proof {
            lemma_mul_upper_bound(
                (t - t_eq) as int,
                u64::MAX as int,
                (assemb_temp - t_eq) as int,
                u64::MAX as int,
            );
        }
        let q: u128 = ((t - t_eq) as u128) * ((assemb_temp - t_eq) as u128) / ((comp_temp
            - t_eq) as u128);
        proof {
            lemma_div_nonincreasing(((t - t_eq) as int) * ((assemb_temp - t_eq) as int), (comp_temp
                - t_eq) as int);
        }
        let w: u128 = q + t_eq as u128;
        if w > VAL_MAX as u128 {
            VAL_MAX
        } else {
            w as u64
        }
    } else {
        t
    }
}

/// The executable form of `scale_own`.
fn scale_own_exec(own: u64, g: u64, t: u64) -> (r: u64)
    ensures
        r == scale_own(own, g, t),
{
    if t == g || t == 0 {
        own
    } else {
        fixed_muldiv(own, g, t)
    }
}

/// Resample a mapped series onto the reference grid.  The output has exactly
/// one sample per grid point, in grid order, its parent axis equal to the
/// grid itself.
pub fn fit_list(thermal_list: &Vec<DataTriplet>, ref_temp_list: &Vec<u64>) -> (out: Vec<
    DataTriplet,
>)
    requires
        thermal_list@.len() >= 1,
        tri_temps_nondec(thermal_list@),
    ensures
        out@.len() == ref_temp_list@.len(),
        forall|i: int|
            0 <= i < out@.len() ==> out@[i] == resampled(thermal_list@, ref_temp_list@[i]),
        forall|i: int| 0 <= i < out@.len() ==> out@[i].temp_part == ref_temp_list@[i],
{
    let n: usize = thermal_list.len();
    let m: usize = ref_temp_list.len();
    let mut out: Vec<DataTriplet> = Vec::new();
    let mut i: usize = 0;
    while i < m
        invariant
            i <= m,
            n == thermal_list@.len(),
            m == ref_temp_list@.len(),
            n >= 1,
            tri_temps_nondec(thermal_list@),
            out@.len() == i,
            forall|p: int|
                0 <= p < i ==> out@[p] == resampled(thermal_list@, ref_temp_list@[p]),
        decreases m - i,
    {
        let g: u64 = ref_temp_list[i];
        if g < thermal_list[0].temp_part {
            let own: u64 = scale_own_exec(
                thermal_list[0].temp_sub_part,
                g,
                thermal_list[0].temp_part,
            );
            out.push(
                DataTriplet {
                    temp_part: g,
                    thermal_data: thermal_list[0].thermal_data,
                    temp_sub_part: own,
                },
            );
        } else {
            let mut j: usize = n - 1;
            while thermal_list[j].temp_part > g
                invariant
                    0 <= j < n,
                    n == thermal_list@.len(),
                    thermal_list@[0].temp_part <= g,
                    bracket_at(thermal_list@, g, n - 1) == bracket_at(thermal_list@, g, j as int),
                    j == n - 1 || thermal_list@[j + 1].temp_part > g,
                decreases j,
            {
                j = j - 1;
            }
            proof {
                assert(bracket_at(thermal_list@, g, j as int) == j);
            }
            if j == n - 1 {
                let own: u64 = scale_own_exec(
                    thermal_list[j].temp_sub_part,
                    g,
                    thermal_list[j].temp_part,
                );
                out.push(
                    DataTriplet {
                        temp_part: g,
                        thermal_data: thermal_list[j].thermal_data,
                        temp_sub_part: own,
                    },
                );
            } else {
                let lo: DataTriplet = thermal_list[j];
                let hi: DataTriplet = thermal_list[j + 1];
                let cp: u64 = fixed_lerp(
                    lo.temp_part,
                    lo.thermal_data.cp,
                    hi.temp_part,
                    hi.thermal_data.cp,
                    g,
                );
                let r_th: u64 = fixed_lerp(
                    lo.temp_part,
                    lo.thermal_data.r_th,
                    hi.temp_part,
                    hi.thermal_data.r_th,
                    g,
                );
                let e: u64 = fixed_lerp(
                    lo.temp_part,
                    lo.thermal_data.e,
                    hi.temp_part,
                    hi.thermal_data.e,
                    g,
                );
                let own: u64 = fixed_lerp(
                    lo.temp_part,
                    lo.temp_sub_part,
                    hi.temp_part,
                    hi.temp_sub_part,
                    g,
                );
                out.push(
                    DataTriplet {
                        temp_part: g,
                        thermal_data: Data { cp, r_th, e },
                        temp_sub_part: own,
                    },
                );
            }
        }
        i = i + 1;
    }
    out
}

/// Map a component's series onto the assembly axis and resample it onto the
/// reference grid, in one step.
pub fn map_component_data_to_assembly(
    assemb_temp_max: u64,
    comp_temp_max: u64,
    t_eq: u64,
    comp_data: &Vec<DataPair>,
    temp_list: &Vec<u64>,
) -> (out: Vec<DataTriplet>)
    requires
        comp_data@.len() >= 1,
        temps_nondec(col_temp(comp_data@)),
        t_eq <= VAL_MAX,
    ensures
        out@.len() == temp_list@.len(),
        forall|i: int|
            0 <= i < out@.len() ==> out@[i] == resampled(
                map_series(assemb_temp_max, comp_temp_max, t_eq, comp_data@),
                temp_list@[i],
            ),
        forall|i: int| 0 <= i < out@.len() ==> out@[i].temp_part == temp_list@[i],
{
    let n: usize = comp_data.len();
    let mut mapped: Vec<DataTriplet> = Vec::new();
    let mut i: usize = 0;
    while i < n
        invariant
            i <= n,
            n == comp_data@.len(),
            mapped@.len() == i,
            forall|p: int|
                0 <= p < i ==> mapped@[p] == map_series(
                    assemb_temp_max,
                    comp_temp_max,
                    t_eq,
                    comp_data@,
                )[p],
        decreases n - i,
    {
        let t: u64 = map_temp_exec(assemb_temp_max, comp_temp_max, t_eq, comp_data[i].0);
        mapped.push(
            DataTriplet {
                temp_part: t,
                thermal_data: comp_data[i].1,
                temp_sub_part: comp_data[i].0,
            },
        );
        i = i + 1;
    }
    proof {
        assert(mapped@ =~= map_series(assemb_temp_max, comp_temp_max, t_eq, comp_data@));
        assert forall|p: int, q: int|
            0 <= p <= q < mapped@.len() implies mapped@[p].temp_part
            <= mapped@[q].temp_part by {
            assert(col_temp(comp_data@)[p] <= col_temp(comp_data@)[q]);
            lemma_map_temp_nondec(
                assemb_temp_max,
                comp_temp_max,
                t_eq,
                comp_data@[p].0,
                comp_data@[q].0,
            );
        }
    }
    fit_list(&mapped, temp_list)
}

} // verus!
