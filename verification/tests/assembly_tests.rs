use ro_thermal::assembly::{calc_tps_data, calc_tps_height_density, tps_value_mult};
use ro_thermal::data::{Data, DataTriplet, Segment, TPS};
use ro_thermal::geometry::normalize_geometry;

fn tri(parent: u64, own: u64, cp: u64, r_th: u64, e: u64) -> DataTriplet {
    DataTriplet { temp_part: parent, thermal_data: Data { cp, r_th, e }, temp_sub_part: own }
}

// areal density = (density * thickness + additive) * portion
#[test]
fn areal_density_formula() {
    let mut seg = Segment::default();
    seg.density = 2_000;
    seg.tickness = 3_000;
    seg.additive_areal_weight = 500;
    seg.portion = 500;
    normalize_geometry(&mut seg);
    assert_eq!(seg.areal_density, 3_250);
}

// cp' = cp * own / parent * (segment density / assembly density); the other
// channels pass through.
#[test]
fn capacity_weighting() {
    let data = vec![tri(200_000, 100_000, 1_000, 77, 88), tri(0, 0, 1_000, 5, 6)];
    let out = tps_value_mult(4_000, 2_000, &data);
    assert_eq!(out[0].thermal_data.cp, 250);
    assert_eq!(out[0].thermal_data.r_th, 77);
    assert_eq!(out[0].thermal_data.e, 88);
    assert_eq!(out[0].temp_part, 200_000);
    assert_eq!(out[0].temp_sub_part, 100_000);
    // at the degenerate axis origin the temperature ratio is taken as one
    assert_eq!(out[1].thermal_data.cp, 500);
}

// Assembly totals are the sums over its layers, separately per variant.
#[test]
fn assembly_height_and_density_sums() {
    let mut tps = TPS::default();
    let mut a = Segment::default();
    a.areal_density = 1_000;
    a.tickness = 500;
    let mut b = Segment::default();
    b.areal_density = 2_000;
    b.tickness = 700;
    tps.segments_min.push(a);
    tps.segments_min.push(b);
    let mut c = Segment::default();
    c.areal_density = 4_000;
    c.tickness = 900;
    tps.segments_max.push(c);
    calc_tps_height_density(&mut tps);
    assert_eq!(tps.areal_density_min, 3_000);
    assert_eq!(tps.tickness_min, 1_200);
    assert_eq!(tps.areal_density_max, 4_000);
    assert_eq!(tps.tickness_max, 900);
}

// Capacities and resistances add up per grid point; the emissivity is the
// first nonzero value in declared layer order: layers with e = 0, 0.3, 0.9
// give 0.3 at every grid point.
#[test]
fn assembly_profile_first_nonzero_emissivity() {
    let grid = vec![0, 50_000];
    let mut l1 = Segment::default();
    l1.data_tps_temp_mult = vec![tri(0, 0, 100, 10, 0), tri(50_000, 50_000, 100, 10, 0)];
    let mut l2 = Segment::default();
    l2.data_tps_temp_mult = vec![tri(0, 0, 200, 20, 300), tri(50_000, 50_000, 200, 20, 300)];
    let mut l3 = Segment::default();
    l3.data_tps_temp_mult = vec![tri(0, 0, 300, 30, 900), tri(50_000, 50_000, 300, 30, 900)];
    let segments = vec![l1, l2, l3];
    let out = calc_tps_data(&segments, &grid);
    assert_eq!(out.len(), 2);
    for (i, p) in out.iter().enumerate() {
        assert_eq!(p.0, grid[i]);
        assert_eq!(p.1.cp, 600);
        assert_eq!(p.1.r_th, 60);
        assert_eq!(p.1.e, 300);
    }
}

// All layers reporting zero emissivity leave the aggregate at zero.
#[test]
fn all_zero_emissivity_stays_zero() {
    let grid = vec![0];
    let mut l1 = Segment::default();
    l1.data_tps_temp_mult = vec![tri(0, 0, 1, 1, 0)];
    let segments = vec![l1];
    let out = calc_tps_data(&segments, &grid);
    assert_eq!(out[0].1.e, 0);
}
