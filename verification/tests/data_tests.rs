use ro_thermal::data::{check_triplets_bounded, Data, DataPair, DataTriplet, Segment, TPS};
use ro_thermal::VAL_MAX;

#[test]
fn channel_arithmetic() {
    let a = Data { cp: 1_000, r_th: 2_000, e: 300 };
    let b = Data { cp: 500, r_th: 3_000, e: 100 };
    assert_eq!(a.add(b), Data { cp: 1_500, r_th: 5_000, e: 400 });
    assert_eq!(a.sub(b), Data { cp: 500, r_th: 0, e: 200 });
    assert_eq!(a.div(b), Data { cp: 2_000, r_th: 666, e: 3_000 });
    assert_eq!(a.mul_by(500), Data { cp: 500, r_th: 1_000, e: 150 });
    assert_eq!(a.div_by(2_000), Data { cp: 500, r_th: 1_000, e: 150 });
}

#[test]
fn pair_triplet_round_trip() {
    let p = DataPair(42_000, Data { cp: 1, r_th: 2, e: 3 });
    let t = p.to_data_triplet();
    assert_eq!(t.temp_part, 0);
    assert_eq!(t.temp_sub_part, 42_000);
    assert_eq!(t.thermal_data, p.1);
    let t2 = DataTriplet {
        temp_part: 7_000,
        thermal_data: Data { cp: 1, r_th: 2, e: 3 },
        temp_sub_part: 42_000,
    };
    let p2 = t2.to_data_pair();
    assert_eq!(p2.0, 7_000);
    assert_eq!(p2.1, t2.thermal_data);
}

#[test]
fn defaults_are_empty() {
    let tps = TPS::default();
    assert_eq!(tps.temp, 0);
    assert_eq!(tps.tickness_min, 0);
    assert!(tps.segments_min.is_empty());
    assert!(tps.data_max.is_empty());
    let seg = Segment::default();
    assert_eq!(seg.portion, 0);
    assert!(seg.data_csv.is_empty());
}

#[test]
fn boundedness_check() {
    let good = vec![DataTriplet {
        temp_part: VAL_MAX,
        thermal_data: Data { cp: 0, r_th: 1, e: 2 },
        temp_sub_part: 3,
    }];
    let bad = vec![DataTriplet {
        temp_part: VAL_MAX + 1,
        thermal_data: Data { cp: 0, r_th: 1, e: 2 },
        temp_sub_part: 3,
    }];
    assert!(check_triplets_bounded(&good));
    assert!(!check_triplets_bounded(&bad));
}
