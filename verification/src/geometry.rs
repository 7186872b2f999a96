//! Geometry normalization: turn a layer's raw per-unit values into values
//! for the installed geometry.
//!
//! The areal density of a layer is `density * thickness` plus an optional
//! additive areal weight, scaled by the layer's area portion.

use crate::data::Segment;
use crate::fixed::{fixed_add, fixed_mul, fx_add, fx_mul};
use vstd::prelude::*;

verus! {

/// A layer's areal density: `(density * thickness + additive) * portion`.
pub open spec fn areal_density_of(
    density: u64,
    tickness: u64,
    additive: u64,
    portion: u64,
) -> u64 {
    fx_mul(fx_add(fx_mul(density, tickness), additive), portion)
}

/// Fill in a layer's derived areal density from its raw geometry; no other
/// field changes.
pub fn normalize_geometry(segment: &mut Segment)
    ensures
        final(segment).areal_density == areal_density_of(
            old(segment).density,
            old(segment).tickness,
            old(segment).additive_areal_weight,
            old(segment).portion,
        ),
        final(segment).name@ == old(segment).name@,
        final(segment).path@ == old(segment).path@,
        final(segment).portion == old(segment).portion,
        final(segment).temp_max == old(segment).temp_max,
        final(segment).temp_hot_side == old(segment).temp_hot_side,
        final(segment).temp_cold_side == old(segment).temp_cold_side,
        final(segment).density == old(segment).density,
        final(segment).tickness == old(segment).tickness,
        final(segment).additive_areal_weight == old(segment).additive_areal_weight,
        final(segment).data_csv@ == old(segment).data_csv@,
        final(segment).data_tps_temp_map@ == old(segment).data_tps_temp_map@,
        final(segment).data_height_adjust@ == old(segment).data_height_adjust@,
        final(segment).data_avg_r@ == old(segment).data_avg_r@,
        final(segment).data_tps_temp_mult@ == old(segment).data_tps_temp_mult@,
{
    let base: u64 = fixed_mul(segment.density, segment.tickness);
    let with_add: u64 = fixed_add(base, segment.additive_areal_weight);
    segment.areal_density = fixed_mul(with_add, segment.portion);
}

} // verus!
