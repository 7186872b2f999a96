use ro_thermal::conduct::{adjust_to_height, avg_cp_k};
use ro_thermal::data::{Data, DataTriplet};

fn tri(own: u64, cp: u64, r_th: u64, e: u64) -> DataTriplet {
    DataTriplet { temp_part: own, thermal_data: Data { cp, r_th, e }, temp_sub_part: own }
}

// r' = height / r * 1000: an insulance of 4.0 over 2.0 of installed
// thickness becomes an absolute resistance of 500.0; zero stays zero.
#[test]
fn adjust_converts_insulance() {
    let data = vec![tri(100_000, 1_000, 4_000, 100), tri(200_000, 2_000, 0, 100)];
    let out = adjust_to_height(2_000, &data);
    assert_eq!(out.len(), 2);
    assert_eq!(out[0].thermal_data.r_th, 500_000);
    assert_eq!(out[1].thermal_data.r_th, 0);
    // everything else passes through
    assert_eq!(out[0].thermal_data.cp, 1_000);
    assert_eq!(out[0].thermal_data.e, 100);
    assert_eq!(out[0].temp_part, 100_000);
    assert_eq!(out[1].temp_sub_part, 200_000);
}

// A nonzero resistance is never collapsed onto the zero sentinel: where the
// quotient would round down to zero, the smallest stored unit is returned.
#[test]
fn adjust_never_manufactures_the_zero_sentinel() {
    // height 0.001 over resistance 2000.0: the exact quotient is 0.0000005
    let data = vec![tri(100_000, 1_000, 2_000_000, 100)];
    let out = adjust_to_height(1, &data);
    assert_eq!(out[0].thermal_data.r_th, 1);
    // for a nonzero height, zero in is the only way to get zero out
    let data = vec![tri(100_000, 1_000, 0, 100), tri(200_000, 1_000, 5, 100)];
    let out = adjust_to_height(2_000, &data);
    assert_eq!(out[0].thermal_data.r_th, 0);
    assert!(out[1].thermal_data.r_th != 0);
}

// The depth-weighted average: with conductivity 1.0 everywhere, the windowed
// averages reproduce the pointwise resistance and mix the capacities by
// their depth weights.
#[test]
fn averaging_exact_values() {
    let data = vec![tri(100_000, 1_000, 1_000_000, 50), tri(200_000, 2_000, 1_000_000, 60)];
    let out = avg_cp_k(1_000, &data, 200_000, 100_000);
    // first point's window holds only itself
    assert_eq!(out[0].thermal_data.cp, 1_000);
    assert_eq!(out[0].thermal_data.r_th, 1_000_000);
    // second point's window holds both samples, weights 2 and 1
    assert_eq!(out[1].thermal_data.cp, 1_333);
    assert_eq!(out[1].thermal_data.r_th, 1_000_000);
    // emissivity and the axes are untouched
    assert_eq!(out[0].thermal_data.e, 50);
    assert_eq!(out[1].thermal_data.e, 60);
    assert_eq!(out[1].temp_part, 200_000);
    assert_eq!(out[1].temp_sub_part, 200_000);
}

// No sample near the hot side: the input comes back unchanged.
#[test]
fn no_reference_sample_returns_input() {
    let data = vec![tri(100_000, 1_000, 1_000_000, 0)];
    let out = avg_cp_k(1_000, &data, 500_000, 100_000);
    assert_eq!(out, data);
}

// A zero resistance at the reference sample: the input comes back unchanged.
#[test]
fn zero_reference_resistance_returns_input() {
    let data = vec![tri(100_000, 1_000, 0, 0), tri(200_000, 2_000, 1_000_000, 0)];
    let out = avg_cp_k(1_000, &data, 100_000, 50_000);
    assert_eq!(out, data);
}

// Depth weights that all round to zero leave each row unchanged.
#[test]
fn empty_weight_window_keeps_row() {
    let data = vec![tri(10, 1_000, 1_000, 0)];
    let out = avg_cp_k(1_000_000_000, &data, 10, 10);
    assert_eq!(out, data);
}
