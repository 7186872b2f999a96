use ro_thermal::data::{Data, DataPair, HeightRequest, TPS};
use ro_thermal::fixed::fixed_blend;
use ro_thermal::height::tps_change_height;

fn stored_tps() -> TPS {
    let mut tps = TPS::default();
    tps.tickness_min = 1_000;
    tps.tickness_max = 3_000;
    tps.areal_density_min = 100;
    tps.areal_density_max = 300;
    tps.data_min = vec![DataPair(0, Data { cp: 1_000, r_th: 2_000, e: 700 })];
    tps.data_max = vec![DataPair(0, Data { cp: 3_000, r_th: 4_000, e: 900 })];
    tps
}

// The blend at its boundary factors reproduces the bounds exactly.
#[test]
fn blend_boundary_factors_are_exact() {
    assert_eq!(fixed_blend(1_234, 987_654, 0), 1_234);
    assert_eq!(fixed_blend(1_234, 987_654, 1_000), 987_654);
    // halfway
    assert_eq!(fixed_blend(1_000, 3_000, 500), 2_000);
}

// Requesting an assembly at exactly its stored bounds returns it bit for
// bit: no interpolation drift at the boundaries.
#[test]
fn stored_bounds_round_trip() {
    let mut tps = stored_tps();
    tps_change_height(&mut tps, HeightRequest::Height(1_000), HeightRequest::Height(3_000));
    let reference = stored_tps();
    assert_eq!(tps.tickness_min, reference.tickness_min);
    assert_eq!(tps.tickness_max, reference.tickness_max);
    assert_eq!(tps.areal_density_min, reference.areal_density_min);
    assert_eq!(tps.areal_density_max, reference.areal_density_max);
    assert_eq!(tps.data_min, reference.data_min);
    assert_eq!(tps.data_max, reference.data_max);
}

// A height halfway between the bounds blends thickness, density, capacity
// and resistance; the emissivity keeps the variant's own value.
#[test]
fn halfway_interpolation() {
    let mut tps = stored_tps();
    tps_change_height(&mut tps, HeightRequest::Height(2_000), HeightRequest::UseMax);
    assert_eq!(tps.tickness_min, 2_000);
    assert_eq!(tps.areal_density_min, 200);
    assert_eq!(tps.data_min[0].1.cp, 2_000);
    assert_eq!(tps.data_min[0].1.r_th, 3_000);
    assert_eq!(tps.data_min[0].1.e, 700);
    // the max bound was left alone
    assert_eq!(tps.tickness_max, 3_000);
    assert_eq!(tps.data_max[0].1.cp, 3_000);
}

// A factor at or below the band snaps the min bound to the min variant,
// which is the stored minimum itself.
#[test]
fn below_band_factor_snaps_min_to_min_variant() {
    let mut tps = stored_tps();
    // (1001 - 1000) * 1000 / 2000 rounds to factor 0
    tps_change_height(&mut tps, HeightRequest::Height(1_001), HeightRequest::Height(3_000));
    let reference = stored_tps();
    assert_eq!(tps.tickness_min, reference.tickness_min);
    assert_eq!(tps.data_min, reference.data_min);
}

// A factor at or above the band snaps the min bound to the max variant:
// thickness, density, capacity and resistance take the max-variant values,
// while the bound keeps its own axis and emissivity.
#[test]
fn above_band_factor_snaps_min_to_max_variant() {
    let mut tps = stored_tps();
    // (2999 - 1000) * 1000 / 2000 rounds to factor 999
    tps_change_height(&mut tps, HeightRequest::Height(2_999), HeightRequest::UseMax);
    assert_eq!(tps.tickness_min, 3_000);
    assert_eq!(tps.areal_density_min, 300);
    assert_eq!(tps.data_min[0].1.cp, 3_000);
    assert_eq!(tps.data_min[0].1.r_th, 4_000);
    assert_eq!(tps.data_min[0].1.e, 700);
    // the max bound was left alone
    assert_eq!(tps.tickness_max, 3_000);
    assert_eq!(tps.data_max, stored_tps().data_max);
}

// A max-bound factor at or below the band snaps the max bound to the
// (already-updated) min values.
#[test]
fn below_band_factor_snaps_max_to_min_values() {
    let mut tps = stored_tps();
    // max-bound request at the stored minimum: factor 0
    tps_change_height(&mut tps, HeightRequest::UseMin, HeightRequest::Height(1_000));
    assert_eq!(tps.tickness_max, 1_000);
    assert_eq!(tps.areal_density_max, 100);
    assert_eq!(tps.data_max[0].1.cp, 1_000);
    assert_eq!(tps.data_max[0].1.r_th, 2_000);
    assert_eq!(tps.data_max[0].1.e, 900);
}

// The sentinels collapse one bound onto the other variant's capacity and
// resistance, each bound keeping its own emissivity.
#[test]
fn sentinels_collapse_bounds() {
    let mut tps = stored_tps();
    tps_change_height(&mut tps, HeightRequest::UseMax, HeightRequest::UseMax);
    assert_eq!(tps.tickness_min, 3_000);
    assert_eq!(tps.areal_density_min, 300);
    assert_eq!(tps.data_min[0].1.cp, 3_000);
    assert_eq!(tps.data_min[0].1.r_th, 4_000);
    assert_eq!(tps.data_min[0].1.e, 700);

    let mut tps2 = stored_tps();
    tps_change_height(&mut tps2, HeightRequest::UseMin, HeightRequest::UseMin);
    // min kept, then max collapsed onto the (unchanged) min
    assert_eq!(tps2.tickness_max, 1_000);
    assert_eq!(tps2.areal_density_max, 100);
    assert_eq!(tps2.data_max[0].1.cp, 1_000);
    assert_eq!(tps2.data_max[0].1.r_th, 2_000);
    assert_eq!(tps2.data_max[0].1.e, 900);
}

// The max bound interpolates against the already-updated min values.
#[test]
fn max_bound_blends_against_updated_min() {
    let mut tps = stored_tps();
    tps_change_height(&mut tps, HeightRequest::UseMax, HeightRequest::Height(2_000));
    // min collapsed to the max variant first
    assert_eq!(tps.tickness_min, 3_000);
    // factor (2000 - 1000) / (3000 - 1000) = 0.5 against original bounds,
    // blended between the new min (3.0) and the stored max (3.0)
    assert_eq!(tps.tickness_max, 3_000);
    assert_eq!(tps.data_max[0].1.cp, 3_000);
    assert_eq!(tps.data_max[0].1.r_th, 4_000);
}
