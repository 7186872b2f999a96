use ro_thermal::data::{check_temps_nondecreasing, Data, DataPair};
use ro_thermal::gridmap::map_component_data_to_assembly;

fn pair(temp: u64, cp: u64, r_th: u64, e: u64) -> DataPair {
    DataPair(temp, Data { cp, r_th, e })
}

// The resampled output has exactly one sample per reference-grid point and
// its parent axis equals the grid, whatever the input domain.
#[test]
fn output_length_and_axis_equal_grid() {
    let comp = vec![pair(100_000, 1_000, 1_000, 100), pair(200_000, 3_000, 2_000, 100)];
    let grid = vec![0, 100_000, 200_000, 300_000, 400_000, 500_000];
    let out = map_component_data_to_assembly(400_000, 200_000, 0, &comp, &grid);
    assert_eq!(out.len(), grid.len());
    for (i, t) in out.iter().enumerate() {
        assert_eq!(t.temp_part, grid[i]);
    }
}

// A component peaking at half the assembly temperature has its temperatures
// doubled; below, inside and beyond the mapped domain behave as documented.
#[test]
fn mapping_and_resampling_values() {
    let comp = vec![pair(100_000, 1_000, 1_000, 100), pair(200_000, 3_000, 2_000, 100)];
    let grid = vec![0, 100_000, 200_000, 300_000, 400_000, 500_000];
    // mapped domain: sample temps 100 and 200 doubled to 200 and 400
    let out = map_component_data_to_assembly(400_000, 200_000, 0, &comp, &grid);

    // below the domain: first sample's channels held, own temperature
    // scaled in proportion to the grid point
    assert_eq!(out[0].thermal_data.cp, 1_000);
    assert_eq!(out[0].temp_sub_part, 0);
    assert_eq!(out[1].thermal_data.cp, 1_000);
    assert_eq!(out[1].temp_sub_part, 50_000); // 100 * 100/200

    // at the first mapped temperature: the first sample exactly
    assert_eq!(out[2].thermal_data.cp, 1_000);
    assert_eq!(out[2].temp_sub_part, 100_000);

    // inside: linear interpolation of channels and own temperature
    assert_eq!(out[3].thermal_data.cp, 2_000);
    assert_eq!(out[3].thermal_data.r_th, 1_500);
    assert_eq!(out[3].thermal_data.e, 100);
    assert_eq!(out[3].temp_sub_part, 150_000);

    // at the last mapped temperature: the last sample exactly
    assert_eq!(out[4].thermal_data.cp, 3_000);
    assert_eq!(out[4].temp_sub_part, 200_000);

    // beyond: last sample's channels held, own temperature scaled up
    assert_eq!(out[5].thermal_data.cp, 3_000);
    assert_eq!(out[5].temp_sub_part, 250_000); // 200 * 500/400
}

// A component peaking at or above the assembly temperature is not scaled.
#[test]
fn no_scaling_when_component_peaks_higher() {
    let comp = vec![pair(100_000, 1_000, 0, 0), pair(300_000, 3_000, 0, 0)];
    let grid = vec![200_000];
    let out = map_component_data_to_assembly(250_000, 300_000, 0, &comp, &grid);
    // grid point 200 sits halfway between unscaled temps 100 and 300
    assert_eq!(out[0].thermal_data.cp, 2_000);
    assert_eq!(out[0].temp_sub_part, 200_000);
}

// Two samples at the same temperature: the later one wins at that grid
// point, and the series still resamples cleanly.
#[test]
fn duplicate_temperatures_take_later_sample() {
    let comp = vec![
        pair(100_000, 1_000, 0, 0),
        pair(200_000, 2_000, 0, 0),
        pair(200_000, 4_000, 0, 0),
        pair(300_000, 6_000, 0, 0),
    ];
    let grid = vec![200_000, 250_000];
    let out = map_component_data_to_assembly(100_000, 200_000, 0, &comp, &grid);
    assert_eq!(out[0].thermal_data.cp, 4_000);
    assert_eq!(out[1].thermal_data.cp, 5_000);
}

#[test]
fn nondecreasing_check() {
    let good = vec![pair(0, 0, 0, 0), pair(1, 0, 0, 0), pair(1, 0, 0, 0)];
    let bad = vec![pair(5, 0, 0, 0), pair(4, 0, 0, 0)];
    assert!(check_temps_nondecreasing(&good));
    assert!(!check_temps_nondecreasing(&bad));
}
