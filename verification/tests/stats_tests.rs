use accuchek::stats::TimeInRange;
use accuchek::units::{GlucoseRange, MgDl, Thresholds, VERY_HIGH_MGDL, VERY_LOW_MGDL};

#[test]
fn test_thresholds_classification() {
    let thresholds = Thresholds::default();

    assert_eq!(thresholds.classify(50), GlucoseRange::VeryLow);
    assert_eq!(thresholds.classify(60), GlucoseRange::Low);
    assert_eq!(thresholds.classify(100), GlucoseRange::InRange);
    assert_eq!(thresholds.classify(200), GlucoseRange::High);
    assert_eq!(thresholds.classify(300), GlucoseRange::VeryHigh);
}

#[test]
fn test_time_in_range() {
    let values = vec![50, 65, 100, 150, 200, 300];
    let tir = TimeInRange::from_values(&values, Thresholds::default());
    assert_eq!(tir.very_low, 1);
    assert_eq!(tir.low, 1);
    assert_eq!(tir.in_range, 2);
    assert_eq!(tir.high, 1);
    assert_eq!(tir.very_high, 1);
}

#[test]
fn default_thresholds() {
    assert_eq!(Thresholds::default(), Thresholds { low_mgdl: 70, high_mgdl: 180 });
    assert_eq!(VERY_LOW_MGDL, 54);
    assert_eq!(VERY_HIGH_MGDL, 250);
}

#[test]
fn classification_at_the_bounds() {
    let thresholds = Thresholds::default();
    assert_eq!(thresholds.classify(0), GlucoseRange::VeryLow);
    assert_eq!(thresholds.classify(53), GlucoseRange::VeryLow);
    assert_eq!(thresholds.classify(54), GlucoseRange::Low);
    assert_eq!(thresholds.classify(69), GlucoseRange::Low);
    assert_eq!(thresholds.classify(70), GlucoseRange::InRange);
    assert_eq!(thresholds.classify(180), GlucoseRange::InRange);
    assert_eq!(thresholds.classify(181), GlucoseRange::High);
    assert_eq!(thresholds.classify(250), GlucoseRange::High);
    assert_eq!(thresholds.classify(251), GlucoseRange::VeryHigh);
    assert_eq!(thresholds.classify(65535), GlucoseRange::VeryHigh);
}

#[test]
fn classification_with_other_thresholds() {
    let thresholds = Thresholds { low_mgdl: 80, high_mgdl: 140 };
    assert_eq!(thresholds.classify(75), GlucoseRange::Low);
    assert_eq!(thresholds.classify(80), GlucoseRange::InRange);
    assert_eq!(thresholds.classify(141), GlucoseRange::High);
    // A low threshold under the fixed bound leaves no room for the low range.
    let thresholds = Thresholds { low_mgdl: 40, high_mgdl: 300 };
    assert_eq!(thresholds.classify(45), GlucoseRange::VeryLow);
    assert_eq!(thresholds.classify(54), GlucoseRange::InRange);
    assert_eq!(thresholds.classify(280), GlucoseRange::InRange);
    assert_eq!(thresholds.classify(301), GlucoseRange::VeryHigh);
}

#[test]
fn time_in_range_counts_every_value_once() {
    let values: Vec<u16> = (0..400).collect();
    let tir = TimeInRange::from_values(&values, Thresholds::default());
    assert_eq!(tir.total, 400);
    assert_eq!(tir.very_low, 54);
    assert_eq!(tir.low, 16);
    assert_eq!(tir.in_range, 111);
    assert_eq!(tir.high, 70);
    assert_eq!(tir.very_high, 149);
    assert_eq!(tir.total_low(), 70);
    assert_eq!(tir.total_high(), 219);
    assert_eq!(tir.very_low + tir.low + tir.in_range + tir.high + tir.very_high, tir.total);
}

#[test]
fn time_in_range_of_nothing_is_zero() {
    let tir = TimeInRange::from_values(&[], Thresholds::default());
    assert_eq!(
        tir,
        TimeInRange { total: 0, very_low: 0, low: 0, in_range: 0, high: 0, very_high: 0 }
    );
    assert_eq!(tir.total_low(), 0);
    assert_eq!(tir.total_high(), 0);
}

#[test]
fn mgdl_from_a_number() {
    assert_eq!(MgDl::from(180), MgDl(180));
    let value: MgDl = 95u16.into();
    assert_eq!(value.0, 95);
    assert!(MgDl(70) < MgDl(180));
}
