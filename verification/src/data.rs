//! The data model: thermal samples, measurement series, layers (segments),
//! assemblies (TPS stacks) and parts.
//!
//! A sample's channels are `cp` (specific heat capacity), `r_th` (thermal
//! resistance or insulance, depending on the pipeline stage) and `e`
//! (emissivity).  A raw series pairs each sample with the temperature it was
//! measured at; once a series has been mapped onto an assembly's axis, each
//! sample carries both the assembly-side temperature (`temp_part`) and the
//! originating component temperature (`temp_sub_part`).

use crate::fixed::{fixed_add, fixed_div, fixed_mul, fixed_sub, fx_add, fx_div, fx_mul, fx_sub,
    VAL_MAX};
use vstd::prelude::*;

verus! {

/// One measured or derived set of channel values.
#[derive(Clone, Copy, Debug, PartialEq, Eq, Structural)]
pub struct Data {
    pub cp: u64,
    pub r_th: u64,
    pub e: u64,
}

impl Data {
    /// Channel-wise saturating sum.
    pub fn add(self, other: Data) -> (r: Data)
        ensures
            r == (Data {
                cp: fx_add(self.cp, other.cp),
                r_th: fx_add(self.r_th, other.r_th),
                e: fx_add(self.e, other.e),
            }),
    {
        Data {
            cp: fixed_add(self.cp, other.cp),
            r_th: fixed_add(self.r_th, other.r_th),
            e: fixed_add(self.e, other.e),
        }
    }

    /// Channel-wise difference, clamped at zero.
    pub fn sub(self, other: Data) -> (r: Data)
        ensures
            r == (Data {
                cp: fx_sub(self.cp, other.cp),
                r_th: fx_sub(self.r_th, other.r_th),
                e: fx_sub(self.e, other.e),
            }),
    {
        Data {
            cp: fixed_sub(self.cp, other.cp),
            r_th: fixed_sub(self.r_th, other.r_th),
            e: fixed_sub(self.e, other.e),
        }
    }

    /// Channel-wise fixed-point quotient.
    pub fn div(self, other: Data) -> (r: Data)
        ensures
            r == (Data {
                cp: fx_div(self.cp, other.cp),
                r_th: fx_div(self.r_th, other.r_th),
                e: fx_div(self.e, other.e),
            }),
    {
        Data {
            cp: fixed_div(self.cp, other.cp),
            r_th: fixed_div(self.r_th, other.r_th),
            e: fixed_div(self.e, other.e),
        }
    }

    /// Every channel divided by one scalar.
    pub fn div_by(self, other: u64) -> (r: Data)
        ensures
            r == (Data {
                cp: fx_div(self.cp, other),
                r_th: fx_div(self.r_th, other),
                e: fx_div(self.e, other),
            }),
    {
        Data {
            cp: fixed_div(self.cp, other),
            r_th: fixed_div(self.r_th, other),
            e: fixed_div(self.e, other),
        }
    }

    /// Every channel multiplied by one scalar.
    pub fn mul_by(self, other: u64) -> (r: Data)
        ensures
            r == (Data {
                cp: fx_mul(self.cp, other),
                r_th: fx_mul(self.r_th, other),
                e: fx_mul(self.e, other),
            }),
    {
        Data {
            cp: fixed_mul(self.cp, other),
            r_th: fixed_mul(self.r_th, other),
            e: fixed_mul(self.e, other),
        }
    }
}

/// A sample on a single temperature axis: `(temperature, channels)`.
#[derive(Clone, Copy, Debug, PartialEq, Eq, Structural)]
pub struct DataPair(pub u64, pub Data);

/// A sample expressed on a parent's temperature axis while retaining the
/// originating component temperature.
#[derive(Clone, Copy, Debug, PartialEq, Eq, Structural)]
pub struct DataTriplet {
    pub temp_part: u64,
    pub thermal_data: Data,
    pub temp_sub_part: u64,
}

impl DataPair {
    /// Lift a plain sample onto a (not yet known) parent axis.
    pub fn to_data_triplet(self) -> (r: DataTriplet)
        ensures
            r == (DataTriplet { temp_part: 0, thermal_data: self.1, temp_sub_part: self.0 }),
    {
        DataTriplet { temp_part: 0, thermal_data: self.1, temp_sub_part: self.0 }
    }
}

impl DataTriplet {
    /// Forget the component temperature, keeping the parent axis.
    pub fn to_data_pair(self) -> (r: DataPair)
        ensures
            r == (DataPair(self.temp_part, self.thermal_data)),
    {
        DataPair(self.temp_part, self.thermal_data)
    }
}

/// A point of a part's final profile.  The axis carries the grid convention's
/// fixed calibration shift and may therefore drop below zero.
#[derive(Clone, Copy, Debug, PartialEq, Eq, Structural)]
pub struct PartPoint {
    pub temp: i64,
    pub data: Data,
}

/// A requested installed thickness for one bound of an assembly: a concrete
/// height, or a sentinel collapsing the bound onto the other stored variant.
#[derive(Clone, Copy, Debug, PartialEq, Eq, Structural)]
pub enum HeightRequest {
    /// Use the max-thickness variant's data for this bound.
    UseMax,
    /// Use the min-thickness variant's data for this bound.
    UseMin,
    /// Interpolate the stored variants to this height.
    Height(u64),
}

/// One material layer of an assembly.
#[derive(Clone, Debug)]
pub struct Segment {
    pub name: String,
    pub path: String,
    pub portion: u64,
    pub temp_max: u64,
    pub temp_hot_side: u64,
    pub temp_cold_side: u64,
    pub density: u64,
    pub tickness: u64,
    pub areal_density: u64,
    pub additive_areal_weight: u64,
    pub data_csv: Vec<DataPair>,
    pub data_tps_temp_map: Vec<DataTriplet>,
    pub data_height_adjust: Vec<DataTriplet>,
    pub data_avg_r: Vec<DataTriplet>,
    pub data_tps_temp_mult: Vec<DataTriplet>,
}

/// An assembly (thermal protection stack) with its two stored thickness
/// variants.
#[derive(Clone, Debug)]
pub struct TPS {
    pub name: String,
    pub temp: u64,
    pub absorbation_const: u64,
    pub data_min: Vec<DataPair>,
    pub areal_density_min: u64,
    pub tickness_min: u64,
    pub segments_min: Vec<Segment>,
    pub data_max: Vec<DataPair>,
    pub areal_density_max: u64,
    pub tickness_max: u64,
    pub segments_max: Vec<Segment>,
    pub has_ablator: String,
    pub cost_per_area: u64,
}

/// One assembly's share of a part: the assembly, its area portion, and its
/// series mapped onto the part's axis for both thickness bounds.
#[derive(Clone, Debug)]
pub struct TpsEntry {
    pub tps: TPS,
    pub portion: u64,
    pub data_min: Vec<DataTriplet>,
    pub data_max: Vec<DataTriplet>,
}

/// A part: a weighted mixture of assemblies and its derived profile.
#[derive(Clone, Debug)]
pub struct Part {
    pub name: String,
    pub description: String,
    pub temp: u64,
    pub absorbation_const: u64,
    pub cost_per_area: u64,
    pub has_ablator: bool,
    pub height_min: u64,
    pub height_max: u64,
    pub areal_density_min: u64,
    pub areal_density_max: u64,
    pub tps_list: Vec<TpsEntry>,
    pub data_min: Vec<PartPoint>,
    pub data_max: Vec<PartPoint>,
}

impl Default for Segment {
    /// An empty layer: no name, no geometry, no data.
    fn default() -> (d: Self)
        ensures
            d.portion == 0,
            d.temp_max == 0,
            d.temp_hot_side == 0,
            d.temp_cold_side == 0,
            d.density == 0,
            d.tickness == 0,
            d.areal_density == 0,
            d.additive_areal_weight == 0,
            d.data_csv@.len() == 0,
            d.data_tps_temp_map@.len() == 0,
            d.data_height_adjust@.len() == 0,
            d.data_avg_r@.len() == 0,
            d.data_tps_temp_mult@.len() == 0,
    {
        Segment {
            name: String::new(),
            path: String::new(),
            portion: 0,
            temp_max: 0,
            temp_hot_side: 0,
            temp_cold_side: 0,
            density: 0,
            tickness: 0,
            areal_density: 0,
            additive_areal_weight: 0,
            data_csv: Vec::new(),
            data_tps_temp_map: Vec::new(),
            data_height_adjust: Vec::new(),
            data_avg_r: Vec::new(),
            data_tps_temp_mult: Vec::new(),
        }
    }
}

impl Default for TPS {
    /// An empty assembly: no layers, no derived data.
    fn default() -> (d: Self)
        ensures
            d.temp == 0,
            d.absorbation_const == 0,
            d.data_min@.len() == 0,
            d.areal_density_min == 0,
            d.tickness_min == 0,
            d.segments_min@.len() == 0,
            d.data_max@.len() == 0,
            d.areal_density_max == 0,
            d.tickness_max == 0,
            d.segments_max@.len() == 0,
            d.cost_per_area == 0,
    {
        TPS {
            name: String::new(),
            temp: 0,
            absorbation_const: 0,
            data_min: Vec::new(),
            areal_density_min: 0,
            tickness_min: 0,
            segments_min: Vec::new(),
            data_max: Vec::new(),
            areal_density_max: 0,
            tickness_max: 0,
            segments_max: Vec::new(),
            has_ablator: String::new(),
            cost_per_area: 0,
        }
    }
}

/// The temperature column of a raw series.
pub open spec fn col_temp(s: Seq<DataPair>) -> Seq<u64> {
    Seq::new(s.len(), |i: int| s[i].0)
}

/// The heat-capacity column of a raw series.
pub open spec fn col_cp(s: Seq<DataPair>) -> Seq<u64> {
    Seq::new(s.len(), |i: int| s[i].1.cp)
}

/// The thermal-resistance column of a raw series.
pub open spec fn col_r(s: Seq<DataPair>) -> Seq<u64> {
    Seq::new(s.len(), |i: int| s[i].1.r_th)
}

/// The emissivity column of a raw series.
pub open spec fn col_e(s: Seq<DataPair>) -> Seq<u64> {
    Seq::new(s.len(), |i: int| s[i].1.e)
}

/// Temperatures that never step downward.
pub open spec fn temps_nondec(s: Seq<u64>) -> bool {
    forall|i: int, j: int| 0 <= i <= j < s.len() ==> s[i] <= s[j]
}

/// All numeric fields of a mapped sample lie in the representable range.
pub open spec fn triplet_bounded(t: DataTriplet) -> bool {
    &&& t.temp_part <= VAL_MAX
    &&& t.temp_sub_part <= VAL_MAX
    &&& t.thermal_data.cp <= VAL_MAX
    &&& t.thermal_data.r_th <= VAL_MAX
    &&& t.thermal_data.e <= VAL_MAX
}

/// Decide whether every sample of a mapped series is in the representable
/// range.
pub fn check_triplets_bounded(s: &Vec<DataTriplet>) -> (r: bool)
    ensures
        r == forall|i: int| 0 <= i < s@.len() ==> triplet_bounded(s@[i]),
{
    let n: usize = s.len();
    let mut i: usize = 0;
    while i < n
        invariant
            i <= n,
            n == s@.len(),
            forall|m: int| 0 <= m < i ==> triplet_bounded(s@[m]),
        decreases n - i,
    {
        let t: &DataTriplet = &s[i];
        if !(t.temp_part <= VAL_MAX && t.temp_sub_part <= VAL_MAX && t.thermal_data.cp <= VAL_MAX
            && t.thermal_data.r_th <= VAL_MAX && t.thermal_data.e <= VAL_MAX) {
            assert(!triplet_bounded(s@[i as int]));
            return false;
        }
        i = i + 1;
    }
    true
}

/// Decide `temps_nondec` for the temperature column of a raw series.
pub fn check_temps_nondecreasing(s: &Vec<DataPair>) -> (r: bool)
    ensures
        r == temps_nondec(col_temp(s@)),
{
    let n: usize = s.len();
    let mut i: usize = 1;
    while i < n
        invariant
            1 <= i <= n || n == 0,
            n == s@.len(),
            forall|p: int, q: int| 0 <= p <= q < i ==> col_temp(s@)[p] <= col_temp(s@)[q],
        decreases n - i,
    {
        if s[i - 1].0 > s[i].0 {
            assert(col_temp(s@)[i - 1] > col_temp(s@)[i as int]);
            return false;
        }
        assert forall|p: int, q: int| 0 <= p <= q < i + 1 implies col_temp(s@)[p]
            <= col_temp(s@)[q] by {
            if q == i && p < i {
                assert(col_temp(s@)[p] <= col_temp(s@)[i - 1]);
            }
        }
        i = i + 1;
    }
    true
}

} // verus!
