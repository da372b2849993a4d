use accuchek::units::{GlucoseRange, GlucoseUnit, MgDl};

#[test]
fn test_mgdl_formatting() {
    let mgdl = MgDl(180);
    assert_eq!(mgdl.format(), "180 mg/dL");
    assert_eq!(mgdl.format_value(), "180");
}

#[test]
fn mgdl_formats_the_ends_of_its_range() {
    assert_eq!(MgDl(0).format(), "0 mg/dL");
    assert_eq!(MgDl(9).format_value(), "9");
    assert_eq!(MgDl(10).format_value(), "10");
    assert_eq!(MgDl(65535).format(), "65535 mg/dL");
    assert_eq!(MgDl(1005).format_value(), "1005");
}

#[test]
fn unit_labels() {
    assert_eq!(MgDl::unit_label(), "mg/dL");
    assert_eq!(GlucoseUnit::MgDl.label(), "mg/dL");
    assert_eq!(GlucoseUnit::MmolL.label(), "mmol/L");
    assert_eq!(GlucoseUnit::default(), GlucoseUnit::MgDl);
}

#[test]
fn range_labels_and_status() {
    assert_eq!(GlucoseRange::VeryLow.label(), "Very Low");
    assert_eq!(GlucoseRange::Low.label(), "Low");
    assert_eq!(GlucoseRange::InRange.label(), "In Range");
    assert_eq!(GlucoseRange::High.label(), "High");
    assert_eq!(GlucoseRange::VeryHigh.label(), "Very High");
    assert_eq!(GlucoseRange::VeryLow.status(), "VERY LOW");
    assert_eq!(GlucoseRange::Low.status(), "LOW");
    assert_eq!(GlucoseRange::InRange.status(), "OK");
    assert_eq!(GlucoseRange::High.status(), "HIGH");
    assert_eq!(GlucoseRange::VeryHigh.status(), "VERY HIGH");
}
