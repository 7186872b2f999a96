use ro_thermal::data::{Data, DataPair};
use ro_thermal::gapfill::fill_gaps_in_csv;

fn pair(temp: u64, cp: u64, r_th: u64, e: u64) -> DataPair {
    DataPair(temp, Data { cp, r_th, e })
}

// A single interior reading of the resistance channel is copied both backward
// and forward: r at temperature 0 and at temperature 200 both become 4.0.
#[test]
fn single_reading_copied_to_both_ends() {
    let series = vec![
        pair(0, 1_000, 0, 0),
        pair(100_000, 2_000, 4_000, 500),
        pair(200_000, 3_000, 0, 500),
    ];
    let out = fill_gaps_in_csv(&series);
    assert_eq!(out.len(), 3);
    assert_eq!(out[0].1.r_th, 4_000);
    assert_eq!(out[2].1.r_th, 4_000);
    // leading placeholder of the emissivity channel copies the first reading
    assert_eq!(out[0].1.e, 500);
    // temperatures and real readings are untouched
    assert_eq!(out[0].0, 0);
    assert_eq!(out[1].0, 100_000);
    assert_eq!(out[1].1.r_th, 4_000);
    assert_eq!(out[0].1.cp, 1_000);
    assert_eq!(out[1].1.cp, 2_000);
    assert_eq!(out[2].1.cp, 3_000);
}

// An interior gap is linearly interpolated in temperature.
#[test]
fn interior_gap_interpolates() {
    let series = vec![
        pair(0, 1_000, 2_000, 0),
        pair(100_000, 0, 0, 0),
        pair(200_000, 3_000, 6_000, 0),
        pair(300_000, 0, 0, 0),
        pair(400_000, 5_000, 0, 0),
    ];
    let out = fill_gaps_in_csv(&series);
    // halfway between 1.0 and 3.0 is 2.0; between 3.0 and 5.0 is 4.0
    assert_eq!(out[1].1.cp, 2_000);
    assert_eq!(out[3].1.cp, 4_000);
    // resistance: interpolated interior, then trailing copies of 6.0
    assert_eq!(out[1].1.r_th, 4_000);
    assert_eq!(out[3].1.r_th, 6_000);
    assert_eq!(out[4].1.r_th, 6_000);
}

// A series with at least one real reading per channel comes out with no
// placeholder anywhere.
#[test]
fn no_placeholders_left() {
    let series = vec![
        pair(0, 0, 0, 100),
        pair(50_000, 700, 0, 0),
        pair(100_000, 0, 900, 0),
        pair(150_000, 0, 0, 0),
    ];
    let out = fill_gaps_in_csv(&series);
    for p in &out {
        assert!(p.1.cp != 0);
        assert!(p.1.r_th != 0);
        assert!(p.1.e != 0);
    }
}

// Healing twice gives the same series as healing once.
#[test]
fn healing_is_idempotent() {
    let series = vec![
        pair(0, 0, 0, 100),
        pair(50_000, 700, 0, 0),
        pair(100_000, 0, 900, 250),
        pair(175_000, 0, 0, 0),
    ];
    let once = fill_gaps_in_csv(&series);
    let twice = fill_gaps_in_csv(&once);
    assert_eq!(once, twice);
}

// An empty series heals to an empty series, without panicking.
#[test]
fn empty_series() {
    let series: Vec<DataPair> = Vec::new();
    let out = fill_gaps_in_csv(&series);
    assert!(out.is_empty());
}

// A channel with no real reading at all stays zero, without panicking.
#[test]
fn all_placeholder_channel_stays_zero() {
    let series = vec![pair(0, 0, 1_000, 0), pair(100_000, 0, 2_000, 0)];
    let out = fill_gaps_in_csv(&series);
    assert_eq!(out[0].1.cp, 0);
    assert_eq!(out[1].1.cp, 0);
    assert_eq!(out[0].1.e, 0);
    assert_eq!(out[1].1.e, 0);
    assert_eq!(out[0].1.r_th, 1_000);
}
