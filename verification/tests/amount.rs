use emv_3ds::types::{Amount, Currency};

#[test]
fn currency_spec_string_zero_pads() {
    assert_eq!(Currency::new(826).unwrap().as_spec_string(), "826");
    assert_eq!(Currency::new(8).unwrap().as_spec_string(), "008");
    assert_eq!(Currency::new(78).unwrap().as_spec_string(), "078");
}

#[test]
fn currency_rejects_out_of_range() {
    assert!(Currency::new(1000).is_err());
}

#[test]
fn amount_amount_spec_fields() {
    let a = Amount::from_major(10, Currency::GBP());
    assert_eq!(a.spec_amount(), "1000");
    assert_eq!(a.spec_currency(), "826");
    assert_eq!(a.spec_exponent(), "2");
}

#[test]
fn currency_code_roundtrips() {
    for raw in 0u16..=999u16 {
        let c = Currency::new(raw).unwrap();
        assert_eq!(c.code(), raw);
    }
}

#[test]
fn currency_spec_string_is_3_chars() {
    for raw in 0u16..=999u16 {
        assert_eq!(Currency::new(raw).unwrap().as_spec_string().len(), 3);
    }
}

#[test]
fn currency_spec_string_parses_back_to_same_code() {
    for raw in 0u16..=999u16 {
        let parsed: u16 = Currency::new(raw).unwrap().as_spec_string().parse().unwrap();
        assert_eq!(parsed, raw);
    }
}

#[test]
fn currency_rejects_values_above_999() {
    for raw in 1000u16..=u16::MAX {
        assert!(Currency::new(raw).is_err());
    }
}

#[test]
fn currency_error_names_field_and_code() {
    match Currency::new(1234) {
        Err(emv_3ds::Error::InvalidField { field, reason }) => {
            assert_eq!(field, "currency");
            assert_eq!(reason, "ISO 4217 numeric code must be 0–999, got 1234");
        }
        other => panic!("expected InvalidField, got {other:?}"),
    }
}

#[test]
fn named_currencies_have_their_codes() {
    assert_eq!(Currency::GBP().code(), 826);
    assert_eq!(Currency::USD().code(), 840);
    assert_eq!(Currency::EUR().code(), 978);
    assert_eq!(Currency::NGN().code(), 566);
    assert_eq!(Currency::ETB().code(), 230);
    assert_eq!(Currency::KES().code(), 404);
    assert_eq!(Currency::GHS().code(), 936);
    assert_eq!(Currency::INR().code(), 356);
    assert_eq!(Currency::PHP().code(), 608);
    assert_eq!(Currency::MXN().code(), 484);
    assert_eq!(Currency::MAD().code(), 504);
    assert_eq!(Currency::AED().code(), 784);
    assert_eq!(Currency::SAR().code(), 682);
}

#[test]
fn amount_from_major_minor_units() {
    for major in [0u64, 1, 7, 99, 100, 12_345, 100_000] {
        let a = Amount::from_major(major, Currency::GBP());
        assert_eq!(a.minor_units, major * 100);
        assert_eq!(a.exponent, 2);
    }
}

#[test]
fn amount_spec_amount_is_minor_units_string() {
    for minor in [0u64, 5, 10, 1099, 10_000_000, u64::MAX] {
        let a = Amount::new(minor, Currency::GBP(), 2);
        assert_eq!(a.spec_amount(), minor.to_string());
    }
}

#[test]
fn amount_spec_exponent_matches_field() {
    for exp in 0u8..=u8::MAX {
        let a = Amount::new(100, Currency::GBP(), exp);
        assert_eq!(a.spec_exponent(), exp.to_string());
    }
}
