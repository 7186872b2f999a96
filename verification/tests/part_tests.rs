use ro_thermal::data::{Data, DataTriplet, Part, TpsEntry, TPS};
use ro_thermal::part::calculate_part;

fn tri(parent: u64, own: u64, cp: u64, r_th: u64, e: u64) -> DataTriplet {
    DataTriplet { temp_part: parent, thermal_data: Data { cp, r_th, e }, temp_sub_part: own }
}

fn empty_part() -> Part {
    Part {
        name: String::new(),
        description: String::new(),
        temp: 0,
        absorbation_const: 0,
        cost_per_area: 0,
        has_ablator: false,
        height_min: 0,
        height_max: 0,
        areal_density_min: 0,
        areal_density_max: 0,
        tps_list: Vec::new(),
        data_min: Vec::new(),
        data_max: Vec::new(),
    }
}

fn entry(portion: u64, ad: u64, th: u64, series: Vec<DataTriplet>) -> TpsEntry {
    let mut tps = TPS::default();
    tps.areal_density_min = ad;
    tps.areal_density_max = ad;
    tps.tickness_min = th;
    tps.tickness_max = th;
    TpsEntry { tps, portion, data_min: series.clone(), data_max: series }
}

// Two assemblies with portions 0.5 and 0.5, identical capacity 10.0 at every
// grid point and own temperatures equal to the part axis: the part's
// capacity is 10.0 at every grid point.
#[test]
fn equal_mixture_keeps_capacity() {
    let grid = vec![0, 50_000];
    let series = vec![tri(0, 0, 10_000, 2_000, 400), tri(50_000, 50_000, 10_000, 2_000, 400)];
    let mut part = empty_part();
    part.tps_list.push(entry(500, 2_000, 1_000, series.clone()));
    part.tps_list.push(entry(500, 2_000, 1_000, series));
    calculate_part(&mut part, &grid, 0);
    assert_eq!(part.data_min.len(), 2);
    assert_eq!(part.data_max.len(), 2);
    for p in &part.data_min {
        assert_eq!(p.data.cp, 10_000);
    }
    for p in &part.data_max {
        assert_eq!(p.data.cp, 10_000);
    }
    // portion-weighted sums of densities and thicknesses
    assert_eq!(part.areal_density_min, 2_000);
    assert_eq!(part.areal_density_max, 2_000);
    assert_eq!(part.height_min, 1_000);
    assert_eq!(part.height_max, 1_000);
}

// The output axis is the grid shifted down by 25 degrees, the resistance is
// stored as its reciprocal, and the emissivity is the portion-weighted sum.
#[test]
fn axis_shift_reciprocal_and_emissivity() {
    let grid = vec![0, 50_000];
    let series = vec![tri(0, 0, 10_000, 2_000, 400), tri(50_000, 50_000, 10_000, 2_000, 400)];
    let mut part = empty_part();
    part.tps_list.push(entry(500, 2_000, 1_000, series.clone()));
    part.tps_list.push(entry(500, 2_000, 1_000, series));
    calculate_part(&mut part, &grid, 0);
    assert_eq!(part.data_min[0].temp, -25_000);
    assert_eq!(part.data_min[1].temp, 25_000);
    // summed resistance 0.5 * 2.0 + 0.5 * 2.0 = 2.0, stored as 1 / 2.0
    assert_eq!(part.data_min[0].data.r_th, 500);
    // emissivity 0.5 * 0.4 + 0.5 * 0.4 = 0.4
    assert_eq!(part.data_min[0].data.e, 400);
}
